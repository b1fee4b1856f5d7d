use odoopod_core::components::odoo::Odoo;
use odoopod_core::components::postgres::{
    get_pg_version, is_supported_pg_version, AuthMethod, DatabaseAction, PgVersion, PostgresInstance,
    PostgresManager, PostgresSettings,
};
use odoopod_core::components::uv::{
    CommandOutput, ReleaseAsset, ReleaseFetch, UvInstallDecision, UvInstance, UvInstaller, UvProbe,
};
use odoopod_core::components::ComponentsManager;
use odoopod_core::error::OdooPodError;

fn settings(version: &str, port: u16) -> PostgresSettings {
    PostgresSettings {
        version: version.to_string(),
        host: "127.0.0.1".to_string(),
        username: "odoo".to_string(),
        password: "odoo".to_string(),
        data_dir: format!("/root/postgres_data/{}", version),
        port,
    }
}

fn asset(name: &str) -> ReleaseAsset {
    ReleaseAsset { name: name.to_string(), browser_download_url: format!("https://example.org/{}", name) }
}

#[test]
fn uv_version_is_trimmed_output() {
    let probe = UvProbe::Finished { success: true, stdout: "uv 0.5.1\n".to_string() };
    assert_eq!(UvInstaller::get_current_uv_version(&probe), Ok("uv 0.5.1".to_string()));
    let failed = UvProbe::Finished { success: false, stdout: "uv 0.5.1\n".to_string() };
    assert_eq!(UvInstaller::get_current_uv_version(&failed), Err("uv is not ready".to_string()));
    assert_eq!(UvInstaller::get_current_uv_version(&UvProbe::Missing), Err("uv is not ready".to_string()));
}

#[test]
fn platform_suffixes() {
    assert_eq!(UvInstaller::platform_asset_suffix("linux", "x86_64"), Some("x86_64-unknown-linux-gnu.tar.gz"));
    assert_eq!(UvInstaller::platform_asset_suffix("linux", "aarch64"), Some("aarch64-unknown-linux-gnu.tar.gz"));
    assert_eq!(UvInstaller::platform_asset_suffix("macos", "x86_64"), Some("x86_64-apple-darwin.tar.gz"));
    assert_eq!(UvInstaller::platform_asset_suffix("macos", "aarch64"), Some("aarch64-apple-darwin.tar.gz"));
    assert_eq!(UvInstaller::platform_asset_suffix("windows", "x86_64"), Some("x86_64-pc-windows-msvc.zip"));
    assert_eq!(UvInstaller::platform_asset_suffix("windows", "aarch64"), Some("aarch64-pc-windows-msvc.zip"));
    assert_eq!(UvInstaller::platform_asset_suffix("windows", "x86"), Some("i686-pc-windows-msvc.zip"));
    assert_eq!(UvInstaller::platform_asset_suffix("freebsd", "x86_64"), None);
}

#[test]
fn select_asset_skips_checksums_and_other_platforms() {
    let assets = vec![
        asset("uv-aarch64-apple-darwin.tar.gz"),
        asset("uv-x86_64-unknown-linux-gnu.tar.gz.sha256"),
        asset("uv-x86_64-unknown-linux-gnu.tar.gz"),
        asset("uv-x86_64-unknown-linux-gnu.tar.gz.bak"),
    ];
    assert_eq!(
        UvInstaller::select_asset(&assets, "linux", "x86_64"),
        Some("https://example.org/uv-x86_64-unknown-linux-gnu.tar.gz".to_string())
    );
    assert_eq!(UvInstaller::select_asset(&assets, "windows", "x86"), None);
    assert_eq!(UvInstaller::select_asset(&assets, "plan9", "mips"), None);
}

#[test]
fn install_uv_decisions() {
    match UvInstaller::install_uv(&ReleaseFetch::RequestFailed("timeout".to_string()), "linux", "x86_64") {
        UvInstallDecision::Report(m) => {
            assert_eq!(m, "An error occurred while fetching the latest version of uv: timeout")
        }
        _ => panic!("expected a report"),
    }
    match UvInstaller::install_uv(&ReleaseFetch::Unsuccessful("403 Forbidden".to_string()), "linux", "x86_64") {
        UvInstallDecision::Report(m) => {
            assert_eq!(m, "Failed to fetch latest uv release metadata. HTTP status: 403 Forbidden")
        }
        _ => panic!("expected a report"),
    }
    let assets = vec![asset("uv-x86_64-apple-darwin.tar.gz")];
    match UvInstaller::install_uv(&ReleaseFetch::Published(assets), "macos", "x86_64") {
        UvInstallDecision::Download(u) => assert_eq!(u, "https://example.org/uv-x86_64-apple-darwin.tar.gz"),
        _ => panic!("expected a download"),
    }
    let assets = vec![asset("uv-x86_64-apple-darwin.tar.gz")];
    assert!(matches!(
        UvInstaller::install_uv(&ReleaseFetch::Published(assets), "linux", "x86_64"),
        UvInstallDecision::NothingToDownload
    ));
}

#[test]
fn uv_archive_entries() {
    assert_eq!(
        UvInstaller::extract_destination("/tools", "uv-x86_64-unknown-linux-gnu/uv"),
        Some("/tools/uv".to_string())
    );
    assert_eq!(UvInstaller::extract_destination("/tools", "uv-x86_64-pc-windows-msvc/uv.exe"), Some("/tools/uv.exe".to_string()));
    assert_eq!(UvInstaller::extract_destination("/tools", "uv-x86_64-unknown-linux-gnu/uvx"), None);
}

#[test]
fn uv_commands() {
    let uv = UvInstance::new("/tools".to_string());
    assert_eq!(uv.uv_path(), "/tools");
    let c = uv.install_python_version_command("3.12");
    assert_eq!(c.program, "/tools/uv");
    assert_eq!(c.args, vec!["python", "install", "3.12"]);
    assert!(c.envs.is_empty());
    let c = uv.create_venv_command("3.12", "/inst/.venv");
    assert_eq!(c.args, vec!["venv", "--python", "3.12", "/inst/.venv"]);
    let c = uv.pip_install_requirements_command("/inst/.venv", "/src/requirements.txt");
    assert_eq!(c.args, vec!["pip", "install", "--no-cache", "-r", "/src/requirements.txt"]);
    assert_eq!(c.envs, vec![("VIRTUAL_ENV".to_string(), "/inst/.venv".to_string())]);
    let c = uv.pip_install_command("/inst/.venv", "psycopg2");
    assert_eq!(c.args, vec!["pip", "install", "psycopg2", "--only-binary=:all"]);
    assert_eq!(c.envs, vec![("VIRTUAL_ENV".to_string(), "/inst/.venv".to_string())]);
}

#[test]
fn uv_command_outcomes() {
    let uv = UvInstance::new("/tools".to_string());
    let ok = Ok(CommandOutput { success: true, stderr: String::new() });
    let bad = Ok(CommandOutput { success: false, stderr: "boom".to_string() });
    let unrun: Result<CommandOutput, String> = Err("no such file".to_string());
    assert_eq!(uv.install_python_version("3.12", &ok), Ok(()));
    assert_eq!(uv.install_python_version("3.12", &bad), Err("Failed to install python version 3.12: boom".to_string()));
    assert_eq!(uv.install_python_version("3.12", &unrun), Err("no such file".to_string()));
    assert_eq!(uv.create_venv(&bad), Err("Failed to create virtual environment: boom".to_string()));
    assert_eq!(uv.pip_install_requirements(&bad), Err("Failed to install requirements: boom".to_string()));
    assert_eq!(uv.pip_install("psycopg2", &bad), Err("Failed to install package psycopg2: boom".to_string()));
    assert_eq!(uv.pip_install("psycopg2", &ok), Ok(()));
}

#[test]
fn pg_versions() {
    assert!(is_supported_pg_version("14"));
    assert!(is_supported_pg_version("17"));
    assert!(!is_supported_pg_version("13"));
    assert!(!is_supported_pg_version("16.1"));
    assert_eq!(get_pg_version("14"), PgVersion::V14);
    assert_eq!(get_pg_version("15"), PgVersion::V15);
    assert_eq!(get_pg_version("16"), PgVersion::V16);
    assert_eq!(get_pg_version("17"), PgVersion::V17);
}

#[test]
fn server_settings_of_postgres_settings() {
    let s = settings("16", 5433).server_settings();
    assert_eq!(s.database_dir, "/root/postgres_data/16");
    assert_eq!(s.port, 5433);
    assert_eq!(s.user, "odoo");
    assert_eq!(s.password, "odoo");
    assert!(matches!(s.auth_method, AuthMethod::Plain));
    assert!(!s.persistent);
    assert_eq!(s.timeout_secs, 15);
    assert!(s.migration_dir.is_none());
}

#[test]
fn ensure_database_decisions() {
    let server = PostgresInstance::new(settings("16", 5432));
    assert_eq!(server.ensure_database(&Ok(true)), Ok(DatabaseAction::Nothing));
    assert_eq!(server.ensure_database(&Ok(false)), Ok(DatabaseAction::Create));
    assert_eq!(
        server.ensure_database(&Err("connection refused".to_string())),
        Err(OdooPodError::CheckDatabaseError("connection refused".to_string()))
    );
}

#[test]
fn postgres_manager_registers_and_finds_servers() {
    let mut m = PostgresManager::new("/pg".to_string());
    assert!(m.get_postgres_server("16").is_none());
    let ports = m.available_ports();
    assert_eq!(ports.len(), 1000);
    assert_eq!(ports[0], 5432);
    let a = m.new_postgres_server(settings("16", 5432));
    let _b = m.new_postgres_server(settings("17", 5433));
    let _c = m.new_postgres_server(settings("16", 5434));
    assert_eq!(a.version(), "16");
    let found = m.get_postgres_server("16").unwrap();
    assert_eq!(found.settings().port, 5432);
    assert_eq!(m.get_postgres_server("17").unwrap().settings().port, 5433);
    assert!(m.get_postgres_server("15").is_none());
    let ports = m.available_ports();
    assert_eq!(ports.len(), 997);
    assert_eq!(ports[0], 5435);
    assert_eq!(*ports.last().unwrap(), 6431);
    assert_eq!(m.servers_handles().len(), 3);
}

#[test]
fn components_manager_shares_uv() {
    let mut c = ComponentsManager::new("/root/bin/tools".to_string(), "/root/bin/postgres".to_string());
    assert_eq!(c.uv().uv_path(), "/root/bin/tools");
    assert!(c.postgres().servers_handles().is_empty());
    c.postgres_mut().new_postgres_server(settings("15", 5432));
    assert_eq!(c.postgres().servers_handles().len(), 1);
    assert_eq!(c.uv().uv_path(), "/root/bin/tools");
}

#[test]
fn odoo_sources() {
    let r = Odoo::download_source_code("18.0");
    assert_eq!(r.url, "https://api.github.com/repos/odoo/odoo/tarball/18.0");
    assert_eq!(r.user_agent, "OdooPod");
    assert_eq!(Odoo::extract_tarball("/src/odoo_18.0", "odoo-odoo-abc123/odoo-bin"), "/src/odoo_18.0/odoo-bin");
    assert_eq!(Odoo::extract_tarball("/src/odoo_18.0", "odoo-odoo-abc123/"), "/src/odoo_18.0/");
    assert_eq!(Odoo::extract_tarball("/dest", "./odoo-x/a"), "/dest/odoo-x/a");
    assert_eq!(Odoo::extract_tarball("/dest", "/x/y"), "/dest/x/y");
}
