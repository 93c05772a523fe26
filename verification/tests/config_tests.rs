use globed_game_server::config::{
    bind_port, censor_key, ensure_trailing_slash, parse_configuration, CentralData,
    StartupConfiguration, StartupInputs, DEFAULT_BIND_ADDRESS, DEFAULT_PORT,
};

fn text(s: &str) -> Option<String> {
    Some(s.to_string())
}

fn no_inputs() -> StartupInputs {
    StartupInputs {
        first_arg: None,
        second_arg: None,
        third_arg: None,
        env_address: None,
        env_central_url: None,
        env_central_password: None,
    }
}

#[test]
fn defaults() {
    assert_eq!(DEFAULT_PORT, 41001);
    assert_eq!(DEFAULT_BIND_ADDRESS, "0.0.0.0:41001");
}

#[test]
fn nothing_given_means_standalone_on_the_default_address() {
    assert_eq!(
        parse_configuration(no_inputs()),
        StartupConfiguration { bind_address: None, central_data: CentralData::Standalone }
    );
}

#[test]
fn environment_without_address_is_not_read() {
    let mut inputs = no_inputs();
    inputs.env_central_url = text("http://central");
    inputs.env_central_password = text("pw");
    assert_eq!(
        parse_configuration(inputs),
        StartupConfiguration { bind_address: None, central_data: CentralData::Standalone }
    );
}

#[test]
fn address_alone_means_standalone() {
    let mut inputs = no_inputs();
    inputs.first_arg = text("127.0.0.1");
    assert_eq!(
        parse_configuration(inputs),
        StartupConfiguration {
            bind_address: text("127.0.0.1"),
            central_data: CentralData::Standalone,
        }
    );
}

#[test]
fn full_command_line() {
    let mut inputs = no_inputs();
    inputs.first_arg = text("0.0.0.0:5000");
    inputs.second_arg = text("http://central");
    inputs.third_arg = text("secret");
    assert_eq!(
        parse_configuration(inputs),
        StartupConfiguration {
            bind_address: text("0.0.0.0:5000"),
            central_data: CentralData::Central {
                url: "http://central/".to_string(),
                password: "secret".to_string(),
            },
        }
    );
}

#[test]
fn url_with_a_slash_is_kept() {
    let mut inputs = no_inputs();
    inputs.first_arg = text("0.0.0.0");
    inputs.second_arg = text("http://central/");
    inputs.third_arg = text("secret");
    assert_eq!(
        parse_configuration(inputs).central_data,
        CentralData::Central {
            url: "http://central/".to_string(),
            password: "secret".to_string(),
        }
    );
}

#[test]
fn missing_password_on_the_command_line() {
    let mut inputs = no_inputs();
    inputs.first_arg = text("0.0.0.0");
    inputs.second_arg = text("http://central");
    inputs.env_central_password = text("ignored");
    assert_eq!(
        parse_configuration(inputs),
        StartupConfiguration {
            bind_address: text("0.0.0.0"),
            central_data: CentralData::MissingPassword { from_env: false },
        }
    );
}

#[test]
fn environment_takes_precedence() {
    let inputs = StartupInputs {
        first_arg: text("1.1.1.1"),
        second_arg: text("http://from-args"),
        third_arg: text("args-pw"),
        env_address: text("2.2.2.2:41002"),
        env_central_url: text("http://from-env"),
        env_central_password: text("env-pw"),
    };
    assert_eq!(
        parse_configuration(inputs),
        StartupConfiguration {
            bind_address: text("2.2.2.2:41002"),
            central_data: CentralData::Central {
                url: "http://from-env/".to_string(),
                password: "env-pw".to_string(),
            },
        }
    );
}

#[test]
fn environment_address_without_url_ignores_the_command_line() {
    let inputs = StartupInputs {
        first_arg: text("1.1.1.1"),
        second_arg: text("http://from-args"),
        third_arg: text("args-pw"),
        env_address: text("2.2.2.2"),
        env_central_url: None,
        env_central_password: text("env-pw"),
    };
    assert_eq!(
        parse_configuration(inputs),
        StartupConfiguration {
            bind_address: text("2.2.2.2"),
            central_data: CentralData::Standalone,
        }
    );
}

#[test]
fn missing_password_in_the_environment() {
    let inputs = StartupInputs {
        first_arg: None,
        second_arg: None,
        third_arg: text("args-pw"),
        env_address: text("2.2.2.2"),
        env_central_url: text("http://from-env"),
        env_central_password: None,
    };
    assert_eq!(
        parse_configuration(inputs).central_data,
        CentralData::MissingPassword { from_env: true }
    );
}

#[test]
fn trailing_slash() {
    assert_eq!(ensure_trailing_slash(String::new()), "/");
    assert_eq!(ensure_trailing_slash("/".to_string()), "/");
    assert_eq!(ensure_trailing_slash("a".to_string()), "a/");
    assert_eq!(ensure_trailing_slash("a/b".to_string()), "a/b/");
    assert_eq!(ensure_trailing_slash("a//".to_string()), "a//");
    assert_eq!(ensure_trailing_slash("\u{2603}".to_string()), "\u{2603}/");
}

#[test]
fn censored_keys() {
    assert_eq!(censor_key("abcdefgh", 4), "abcd****");
    assert_eq!(censor_key("abcd", 4), "****");
    assert_eq!(censor_key("abc", 4), "***");
    assert_eq!(censor_key("", 4), "");
    assert_eq!(censor_key("abcde", 0), "*****");
    assert_eq!(censor_key("abcde", 5), "*****");
    assert_eq!(censor_key("abcde", 4), "abcd*");
    // one asterisk for each byte that is hidden
    assert_eq!(censor_key("ab\u{e9}\u{e9}", 2), "ab****");
    assert_eq!(censor_key("\u{e9}", 4), "**");
}

#[test]
fn port_of_a_socket_address_is_kept() {
    assert_eq!(bind_port(Some(5000), false), Some(5000));
    assert_eq!(bind_port(Some(0), false), Some(0));
    assert_eq!(bind_port(Some(80), true), Some(80));
}

#[test]
fn bare_ipv4_address_gets_the_default_port() {
    assert_eq!(bind_port(None, true), Some(41001));
}

#[test]
fn text_that_is_no_address_has_no_port() {
    assert_eq!(bind_port(None, false), None);
}
