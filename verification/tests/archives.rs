use odoopod_core::archive::archive_entry_paths;
use odoopod_core::components::odoo::Odoo;
use odoopod_core::components::uv::{UvEntryPlan, UvInstaller};

fn tar_gz(entries: &[(&str, &[u8])]) -> Vec<u8> {
    let encoder = flate2::write::GzEncoder::new(Vec::new(), flate2::Compression::default());
    let mut builder = tar::Builder::new(encoder);
    for (path, data) in entries {
        let mut header = tar::Header::new_gnu();
        header.set_size(data.len() as u64);
        header.set_mode(0o755);
        header.set_cksum();
        builder.append_data(&mut header, path, *data).unwrap();
    }
    builder.into_inner().unwrap().finish().unwrap()
}

#[test]
fn entry_paths_of_an_archive() {
    let bytes = tar_gz(&[("odoo-abc/odoo-bin", b"#!python"), ("odoo-abc/addons/base/x.py", b"")]);
    let (paths, complete) = archive_entry_paths(&bytes);
    assert!(complete);
    assert_eq!(paths, vec!["odoo-abc/odoo-bin", "odoo-abc/addons/base/x.py"]);
}

#[test]
fn unreadable_archive_gives_no_paths() {
    let (paths, complete) = archive_entry_paths(b"not an archive at all");
    assert!(!complete);
    assert!(paths.is_empty());
}

#[test]
fn source_archive_plan() {
    let bytes = tar_gz(&[("odoo-abc/odoo-bin", b"#!python"), ("odoo-abc/addons/base/x.py", b"")]);
    let (plan, complete) = Odoo::source_unpack_plan("/src/odoo_18.0", &bytes);
    assert!(complete);
    assert_eq!(plan, vec!["/src/odoo_18.0/odoo-bin", "/src/odoo_18.0/addons/base/x.py"]);
    let paths = vec!["top/a".to_string(), "./top/b".to_string()];
    assert_eq!(Odoo::source_destinations_for("/d", &paths), vec!["/d/a", "/d/top/b"]);
}

#[test]
fn uv_archive_plan() {
    let bytes = tar_gz(&[
        ("uv-x86_64-unknown-linux-gnu/uv", b"elf"),
        ("uv-x86_64-unknown-linux-gnu/uvx", b"elf"),
        ("uv-x86_64-unknown-linux-gnu/LICENSE", b"text"),
    ]);
    let (plan, complete) = UvInstaller::uv_unpack_plan("/tools", &bytes);
    assert!(complete);
    assert_eq!(plan.len(), 3);
    assert!(matches!(&plan[0], UvEntryPlan::Unpack(d) if d == "/tools/uv"));
    assert!(matches!(plan[1], UvEntryPlan::Skip));
    assert!(matches!(plan[2], UvEntryPlan::Skip));
    let paths = vec!["dist/uv.exe".to_string(), "/".to_string(), "a/..".to_string()];
    let plan = UvInstaller::entry_plans_for("/tools", &paths);
    assert!(matches!(&plan[0], UvEntryPlan::Unpack(d) if d == "/tools/uv.exe"));
    assert!(matches!(plan[1], UvEntryPlan::NoFileName));
    assert!(matches!(plan[2], UvEntryPlan::NoFileName));
    assert!(matches!(UvInstaller::entry_plan("/tools", "x/uv"), UvEntryPlan::Unpack(_)));
}
