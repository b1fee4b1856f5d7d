use odoopod_core::components::postgres::{PostgresInstance, PostgresSettings};
use odoopod_core::components::uv::UvInstance;
use odoopod_core::error::OdooPodError;
use odoopod_core::instance::{
    render_config_file, InstanceConfig, OdooInstance, SetupAction, SetupEvent, SetupStage, StartFailure,
};
use std::sync::Arc;

fn config() -> InstanceConfig {
    InstanceConfig {
        name: "shop".to_string(),
        odoo_version: "18.0".to_string(),
        community: true,
        python_version: "3.12".to_string(),
        pg_version: "16".to_string(),
        http_port: 8069,
        longpolling_port: 8072,
        path: "/work/shop".to_string(),
    }
}

fn parts() -> (Arc<UvInstance>, Arc<PostgresInstance>) {
    let uv = Arc::new(UvInstance::new("/root/bin/tools".to_string()));
    let pg = Arc::new(PostgresInstance::new(PostgresSettings {
        version: "16".to_string(),
        host: "127.0.0.1".to_string(),
        username: "odoo".to_string(),
        password: "odoo".to_string(),
        data_dir: "/root/postgres_data/16".to_string(),
        port: 5432,
    }));
    (uv, pg)
}

#[test]
fn config_file_content() {
    assert_eq!(
        render_config_file(&config()),
        "[options]\naddons_path = /work/shop/odoo/addons\ndb_user = odoo\ndb_password = odoo\ndb_port = 5432\ndb_host = 127.0.0.1\nhttp_port = 8069\nlongpolling_port = 8072\n"
    );
}

#[test]
fn launch_plan_runs_odoo_bin_from_the_venv() {
    let (uv, pg) = parts();
    let ready = OdooInstance::from_config(config(), uv, pg, "/root/sources/odoo_18.0".to_string());
    assert_eq!(ready.name(), "shop");
    assert_eq!(ready.path(), "/work/shop");
    let plan = ready.launch_plan();
    assert_eq!(plan.log_path, "/work/shop/odoo.log");
    assert_eq!(plan.program, "/work/shop/.venv/bin/python");
    assert_eq!(plan.args, vec!["/root/sources/odoo_18.0/odoo-bin", "-c", "/work/shop/odoo.conf"]);
    assert_eq!(
        plan.notices,
        vec![
            "Instance 'shop' started \u{2014} logs: /work/shop/odoo.log",
            "Odoo will be available at http://localhost:8069 after it finishes booting.",
        ]
    );
}

#[test]
fn start_then_stop_gives_back_the_ready_instance() {
    let (uv, pg) = parts();
    let ready = OdooInstance::from_config(config(), uv, pg, "/root/sources/odoo_18.0".to_string());
    assert_eq!(ready.child(), None);
    let running = ready.start(Ok(4242)).ok().unwrap();
    assert_eq!(running.child(), Some(4242));
    assert_eq!(running.name(), "shop");
    let stopped = running.stop(Ok(())).ok().unwrap();
    assert_eq!(stopped.child(), None);
    assert_eq!(stopped.name(), "shop");
    assert_eq!(stopped.odoo_path(), "/root/sources/odoo_18.0");
    assert_eq!(stopped.uv().uv_path(), "/root/bin/tools");
    assert_eq!(stopped.postgres().settings().port, 5432);
}

#[test]
fn start_failures_become_start_errors() {
    let (uv, pg) = parts();
    let ready = OdooInstance::from_config(config(), uv.clone(), pg.clone(), "/src".to_string());
    let e = ready.start(Err(StartFailure::LogFile("permission denied".to_string()))).err().unwrap();
    assert_eq!(
        e,
        OdooPodError::StartInstanceError("Cannot open log file /work/shop/odoo.log: permission denied".to_string())
    );
    let ready = OdooInstance::from_config(config(), uv.clone(), pg.clone(), "/src".to_string());
    let e = ready.start(Err(StartFailure::Spawn("not found".to_string()))).err().unwrap();
    assert_eq!(e, OdooPodError::StartInstanceError("not found".to_string()));
    let ready = OdooInstance::from_config(config(), uv, pg, "/src".to_string());
    let e = ready.start(Err(StartFailure::LogHandle("bad fd".to_string()))).err().unwrap();
    assert_eq!(e, OdooPodError::StartInstanceError("bad fd".to_string()));
}

#[test]
fn stop_failures() {
    let (uv, pg) = parts();
    let ready = OdooInstance::from_config(config(), uv.clone(), pg.clone(), "/src".to_string());
    let running = ready.start(Ok(7)).ok().unwrap();
    let e = running.stop(Err("no such process".to_string())).err().unwrap();
    assert_eq!(e, OdooPodError::StopInstanceError("no such process".to_string()));
    let attached = OdooInstance::attach(config(), uv.clone(), pg.clone(), "/src".to_string(), 31337);
    assert_eq!(attached.child(), Some(31337));
    assert_eq!(attached.name(), "shop");
    let e = attached.stop(Err("no such process".to_string())).err().unwrap();
    assert_eq!(e, OdooPodError::StopInstanceError("no such process".to_string()));
    let attached = OdooInstance::attach(config(), uv.clone(), pg.clone(), "/src".to_string(), 31337);
    let back = attached.stop(Ok(())).ok().unwrap();
    assert_eq!(back.child(), None);
    let ready = OdooInstance::from_config(config(), uv, pg, "/src".to_string());
    assert!(ready.stop(Err("ignored".to_string())).is_ok());
}

fn answer(m: odoopod_core::instance::SetupMachine, e: SetupEvent) -> odoopod_core::instance::SetupMachine {
    assert!(m.accepts(&e));
    m.step(e)
}

#[test]
fn setup_of_a_fresh_instance_runs_every_step_in_order() {
    let (uv, pg) = parts();
    let inst = OdooInstance::new(config(), uv, pg, "/root/sources/odoo_18.0".to_string());
    let mut m = inst.setup_machine();
    let mut seen: Vec<String> = Vec::new();
    loop {
        let event = match m.action() {
            SetupAction::InstallPython { python_version } => {
                seen.push(format!("python {}", python_version));
                SetupEvent::Succeeded
            }
            SetupAction::CheckExists { path } => {
                seen.push(format!("exists? {}", path));
                SetupEvent::Exists(false)
            }
            SetupAction::CreateVenv { python_version, venv_path } => {
                seen.push(format!("venv {} {}", python_version, venv_path));
                SetupEvent::Succeeded
            }
            SetupAction::FetchSource { odoo_version, enterprise, destination } => {
                seen.push(format!("fetch {} {} {}", odoo_version, enterprise, destination));
                SetupEvent::Succeeded
            }
            SetupAction::InstallRequirements { venv_path, requirements_path } => {
                seen.push(format!("requirements {} {}", venv_path, requirements_path));
                SetupEvent::Succeeded
            }
            SetupAction::WriteFile { path, content } => {
                assert_eq!(content, render_config_file(&config()));
                seen.push(format!("write {}", path));
                SetupEvent::Succeeded
            }
            SetupAction::CreateSymlink { target, link } => {
                seen.push(format!("link {} {}", target, link));
                SetupEvent::Succeeded
            }
            SetupAction::Finish => break,
            SetupAction::Abort(e) => panic!("unexpected failure {:?}", e),
        };
        m = answer(m, event);
    }
    assert_eq!(
        seen,
        vec![
            "python 3.12",
            "exists? /work/shop/.venv",
            "venv 3.12 /work/shop/.venv",
            "exists? /root/sources/odoo_18.0",
            "fetch 18.0 false /root/sources/odoo_18.0",
            "requirements /work/shop/.venv /root/sources/odoo_18.0/requirements.txt",
            "exists? /work/shop/odoo.conf",
            "write /work/shop/odoo.conf",
            "exists? /work/shop/odoo",
            "link /root/sources/odoo_18.0 /work/shop/odoo",
        ]
    );
    assert!(m.is_finished());
    let ready = inst.setup(m).ok().unwrap();
    assert_eq!(ready.name(), "shop");
    assert_eq!(ready.child(), None);
}

#[test]
fn setup_skips_what_exists() {
    let (uv, pg) = parts();
    let inst = OdooInstance::new(config(), uv, pg, "/src".to_string());
    let mut m = inst.setup_machine();
    m = answer(m, SetupEvent::Succeeded);
    m = answer(m, SetupEvent::Exists(true));
    assert!(matches!(*m.stage(), SetupStage::CheckSourceDir));
    m = answer(m, SetupEvent::Exists(true));
    match m.action() {
        SetupAction::CheckExists { path } => assert_eq!(path, "/src/odoo-bin"),
        _ => panic!("expected a check of odoo-bin"),
    }
    m = answer(m, SetupEvent::Exists(true));
    assert!(matches!(*m.stage(), SetupStage::InstallRequirements));
    m = answer(m, SetupEvent::Succeeded);
    m = answer(m, SetupEvent::Exists(true));
    m = answer(m, SetupEvent::Exists(true));
    assert!(matches!(*m.stage(), SetupStage::Done));
    assert!(!m.accepts(&SetupEvent::Succeeded));
    assert!(!m.accepts(&SetupEvent::Exists(true)));
    assert!(inst.setup(m).is_ok());
}

#[test]
fn setup_failures_map_to_errors() {
    let (uv, pg) = parts();
    let inst = OdooInstance::new(config(), uv.clone(), pg.clone(), "/src".to_string());
    let m = answer(inst.setup_machine(), SetupEvent::Failed("no python".to_string()));
    match m.action() {
        SetupAction::Abort(e) => assert_eq!(e, OdooPodError::SetupFailed("no python".to_string())),
        _ => panic!("expected an abort"),
    }
    assert_eq!(inst.setup(m).err().unwrap(), OdooPodError::SetupFailed("no python".to_string()));

    let inst = OdooInstance::new(config(), uv.clone(), pg.clone(), "/src".to_string());
    let mut m = inst.setup_machine();
    assert!(!m.accepts(&SetupEvent::Exists(true)));
    m = answer(m, SetupEvent::Succeeded);
    assert!(!m.accepts(&SetupEvent::Succeeded));
    m = answer(m, SetupEvent::Exists(false));
    m = answer(m, SetupEvent::Failed("disk full".to_string()));
    assert_eq!(inst.setup(m).err().unwrap(), OdooPodError::CreateVenvError("disk full".to_string()));

    let inst = OdooInstance::new(config(), uv, pg, "/src".to_string());
    let mut m = inst.setup_machine();
    m = answer(m, SetupEvent::Succeeded);
    m = answer(m, SetupEvent::Exists(true));
    m = answer(m, SetupEvent::Exists(true));
    m = answer(m, SetupEvent::Exists(true));
    m = answer(m, SetupEvent::Failed("pip".to_string()));
    assert!(m.is_finished());
    assert_eq!(inst.setup(m).err().unwrap(), OdooPodError::InstallRequirementsError("pip".to_string()));
}
