use systemd_doctor::config::{Config, ConfigParser, Services};

#[test]
fn parser_hands_out_the_configuration() {
    let config = Config {
        services: Services { list: Some(vec!["nginx".to_string(), "redis".to_string()]) },
    };
    let parser = ConfigParser::new(Some(config.clone()));
    assert_eq!(parser.get_config(), &config);
    assert_eq!(
        parser.get_config_services(),
        &Some(vec!["nginx".to_string(), "redis".to_string()])
    );
}

#[test]
fn parser_without_a_list_of_services() {
    let parser = ConfigParser::new(Some(Config { services: Services { list: None } }));
    assert_eq!(parser.get_config_services(), &None);
    assert_eq!(parser.get_config().services, Services { list: None });
}

#[test]
fn parser_without_a_configuration_tracks_no_service() {
    let parser = ConfigParser::new(None);
    assert_eq!(parser.get_config(), &Config { services: Services { list: None } });
    assert_eq!(parser.get_config_services(), &None);
}
