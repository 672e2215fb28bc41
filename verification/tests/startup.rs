use choretle::guardian;
use choretle::pioneer;
use choretle::startup::{config_text, listen_address, missing_config};

#[test]
fn the_environment_comes_before_the_file() {
    let env = Some(String::from("{\"from\":\"env\"}"));
    let file = Some(String::from("{\"from\":\"file\"}"));
    assert_eq!(config_text(env.clone(), file.clone()), env);
    assert_eq!(config_text(env.clone(), None), env);
    assert_eq!(config_text(None, file.clone()), file);
    assert_eq!(config_text(None, None), None);
}

#[test]
fn an_empty_environment_text_still_comes_first() {
    assert_eq!(config_text(Some(String::new()), Some(String::from("{}"))), Some(String::new()));
}

#[test]
fn the_message_names_the_service() {
    assert_eq!(missing_config("guardian"), "Failed to get config for guardian service");
    assert_eq!(missing_config("overseer"), "Failed to get config for overseer service");
    assert_eq!(missing_config("pioneer"), "Failed to get config for pioneer service");
    assert_eq!(missing_config(""), "Failed to get config for  service");
}

#[test]
fn the_address_is_every_interface_and_the_port() {
    assert_eq!(listen_address(8080), "0.0.0.0:8080");
    assert_eq!(listen_address(0), "0.0.0.0:0");
    assert_eq!(listen_address(7), "0.0.0.0:7");
    assert_eq!(listen_address(10), "0.0.0.0:10");
    assert_eq!(listen_address(443), "0.0.0.0:443");
    assert_eq!(listen_address(10000), "0.0.0.0:10000");
    assert_eq!(listen_address(65535), "0.0.0.0:65535");
}

#[test]
fn the_address_matches_the_standard_rendering() {
    for port in [1u16, 9, 11, 99, 100, 101, 999, 1000, 1001, 9999, 27017, 60000, 65534] {
        assert_eq!(listen_address(port), format!("0.0.0.0:{}", port));
    }
}

#[test]
fn guardian_answers_every_login_with_success() {
    let service = guardian::Service::create(guardian::Config { name: String::from("guardian"), port: 8080 });
    assert_eq!(service.config.name, "guardian");
    assert_eq!(service.config.port, 8080);
    assert_eq!(service.login(), 200);
    let user = guardian::User { name: String::from("ann"), password: String::from("secret") };
    assert_eq!(user.name, "ann");
    assert_eq!(user.password, "secret");
}

#[test]
fn pioneer_serves_its_directory() {
    let config = pioneer::Config {
        name: String::from("pioneer"),
        port: 8082,
        services: vec![
            pioneer::ServiceData { name: String::from("guardian"), uri: String::from("http://localhost:8080") },
            pioneer::ServiceData { name: String::from("overseer"), uri: String::from("http://localhost:8081") },
        ],
    };
    let service = pioneer::Service::create(config);
    let (status, services) = service.services();
    assert_eq!(status, 200);
    assert_eq!(services.len(), 2);
    assert_eq!(services[0].name, "guardian");
    assert_eq!(services[0].uri, "http://localhost:8080");
    assert_eq!(services[1].name, "overseer");
    assert_eq!(services[1].uri, "http://localhost:8081");
    let empty = pioneer::Service::create(pioneer::Config { name: String::new(), port: 0, services: Vec::new() });
    assert_eq!(empty.services().0, 200);
    assert!(empty.services().1.is_empty());
}
