use odoopod_core::components::postgres::PostgresSettings;
use odoopod_core::error::OdooPodError;
use odoopod_core::instance::{InstanceConfig, OdooInstance, Ready};
use odoopod_core::OdooPod;

fn config(name: &str, version: &str) -> InstanceConfig {
    InstanceConfig {
        name: name.to_string(),
        odoo_version: version.to_string(),
        community: true,
        python_version: "3.12".to_string(),
        pg_version: "16".to_string(),
        http_port: 8069,
        longpolling_port: 8072,
        path: format!("/work/{}", name),
    }
}

#[test]
fn app_dir_choice() {
    assert_eq!(OdooPod::app_dir(Some("/data".to_string()), Some("/home/me/.config".to_string())), "/data");
    assert_eq!(OdooPod::app_dir(None, Some("/home/me/.config".to_string())), "/home/me/.config/odoopod");
    assert_eq!(OdooPod::app_dir(None, None), ".");
}

#[test]
fn pod_paths() {
    assert_eq!(OdooPod::tools_dir("/data"), "/data/bin/tools");
    assert_eq!(OdooPod::postgres_bin_dir("/data"), "/data/bin/postgres");
    assert_eq!(OdooPod::configs_file("/data"), "/data/instances.yaml");
    let pod = OdooPod::new("/data".to_string(), vec![]);
    assert_eq!(pod.root_path(), "/data");
    assert_eq!(pod.source_dir("17.0"), "/data/sources/odoo_17.0");
    assert_eq!(pod.components_manager().uv().uv_path(), "/data/bin/tools");
    assert!(pod.running_instances().is_empty());
}

#[test]
fn record_find_and_forget_configs() {
    let mut pod = OdooPod::new("/data".to_string(), vec![config("a", "17.0")]);
    assert!(pod.find_config("b").is_none());
    pod.record_config(config("b", "18.0"));
    assert_eq!(pod.get_known_configs().len(), 2);
    assert_eq!(pod.find_config("b").unwrap().odoo_version, "18.0");
    assert_eq!(pod.duplicate_config_name(), None);
    pod.record_config(config("c", "16.0"));
    pod.forget_config("b");
    assert!(pod.find_config("b").is_none());
    let names: Vec<String> = pod.get_known_configs().iter().map(|c| c.name.clone()).collect();
    assert_eq!(names, vec!["a", "c"]);
    assert_eq!(pod.find_config("c").unwrap().odoo_version, "16.0");
}

#[test]
fn duplicate_names_are_reported() {
    let mut pod = OdooPod::new("/data".to_string(), vec![config("a", "17.0"), config("b", "17.0")]);
    pod.record_config(config("a", "18.0"));
    assert_eq!(pod.duplicate_config_name(), Some("a".to_string()));
    assert_eq!(pod.find_config("a").unwrap().odoo_version, "17.0");
    pod.forget_config("a");
    assert_eq!(pod.duplicate_config_name(), None);
}

#[test]
fn free_ports_with_nothing_running() {
    let pod = OdooPod::new("/data".to_string(), vec![]);
    let http = pod.available_odoo_ports();
    assert_eq!(http.len(), 1000);
    assert_eq!(http[0], 8000);
    assert_eq!(http[999], 8999);
    let lp = pod.available_longpolling_ports();
    assert_eq!(lp.len(), 1000);
    assert_eq!(lp[0], 9000);
    assert_eq!(lp[999], 9999);
    let pg = pod.available_postgres_ports();
    assert_eq!(pg[0], 5432);
}

#[test]
fn postgres_settings_take_the_first_free_port() {
    let mut pod = OdooPod::new("/data".to_string(), vec![]);
    let s = pod.postgres_settings_for(&config("a", "17.0")).ok().unwrap();
    assert_eq!(s.version, "16");
    assert_eq!(s.host, "127.0.0.1");
    assert_eq!(s.username, "odoo");
    assert_eq!(s.password, "odoo");
    assert_eq!(s.port, 5432);
    assert_eq!(s.data_dir, "/data/postgres_data/16");
    let server = pod.register_postgres_server(s);
    assert_eq!(server.version(), "16");
    let s2 = pod.postgres_settings_for(&config("b", "17.0")).ok().unwrap();
    assert_eq!(s2.port, 5433);
    let inst = pod.create_instance(config("a", "17.0"), server.clone());
    assert_eq!(inst.odoo_path(), "/data/sources/odoo_17.0");
    assert_eq!(inst.postgres().settings().port, 5432);
    let ready = pod.ready_instance(config("a", "17.0"), server);
    assert_eq!(ready.odoo_path(), "/data/sources/odoo_17.0");
    assert_eq!(ready.uv().uv_path(), "/data/bin/tools");
}

#[test]
fn no_free_postgres_port_is_an_error() {
    let mut pod = OdooPod::new("/data".to_string(), vec![]);
    for port in 5432u16..6432 {
        pod.register_postgres_server(PostgresSettings {
            version: "16".to_string(),
            host: "127.0.0.1".to_string(),
            username: "odoo".to_string(),
            password: "odoo".to_string(),
            data_dir: "/d".to_string(),
            port,
        });
    }
    assert!(pod.available_postgres_ports().is_empty());
    let e = pod.postgres_settings_for(&config("a", "17.0")).err().unwrap();
    assert_eq!(e, OdooPodError::NoAvailablePort("No available port for Postgres".to_string()));
    assert_eq!(e.message(), "No available port for PostgreSQL: No available port for Postgres");
}

#[test]
fn forgetting_a_new_record_restores_the_known_configs() {
    let mut pod = OdooPod::new("/data".to_string(), vec![config("a", "17.0"), config("b", "16.0")]);
    pod.record_config(config("c", "18.0"));
    pod.forget_config("c");
    let names: Vec<String> = pod.get_known_configs().iter().map(|c| c.name.clone()).collect();
    assert_eq!(names, vec!["a", "b"]);
}

#[test]
fn ports_of_running_instances_are_not_offered() {
    let mut pod = OdooPod::new("/data".to_string(), vec![]);
    let s = pod.postgres_settings_for(&config("a", "17.0")).ok().unwrap();
    let server = pod.register_postgres_server(s);
    let ready = pod.ready_instance(config("a", "17.0"), server);
    let running = ready.start(Ok(11)).ok().unwrap();
    assert_eq!(running.config().http_port, 8069);
    let back: OdooInstance<Ready> = running.stop(Ok(())).ok().unwrap();
    assert_eq!(back.config().longpolling_port, 8072);
    assert!(pod.available_odoo_ports().contains(&8069));
}
