use revproxy::config::{
    get_env, get_env_bool, get_env_opt, Auth, Config, ConfigError, HttpConfig, HttpsConfig,
    IpAddress, SocksConfig,
};
use revproxy::env::Environment;

fn env_of(pairs: &[(&str, &str)]) -> Environment {
    let mut env = Environment::new();
    for (key, value) in pairs {
        env.set(key, value);
    }
    env
}

fn default_auth() -> Auth {
    Auth::UserPass { username: "user".to_string(), password: "pass".to_string() }
}

const PUBLIC: IpAddress = IpAddress::V4([203, 0, 113, 7]);

#[test]
fn get_env_falls_back_to_the_default() {
    let env = env_of(&[("SET", "value"), ("EMPTY", "")]);
    assert_eq!(get_env(&env, "SET", "default"), Ok("value".to_string()));
    assert_eq!(get_env(&env, "EMPTY", "default"), Ok(String::new()));
    assert_eq!(get_env(&env, "UNSET", "default"), Ok("default".to_string()));
}

#[test]
fn get_env_opt_tells_unset_from_empty() {
    let env = env_of(&[("SET", "value"), ("EMPTY", "")]);
    assert_eq!(get_env_opt(&env, "SET"), Ok(Some("value".to_string())));
    assert_eq!(get_env_opt(&env, "EMPTY"), Ok(Some(String::new())));
    assert_eq!(get_env_opt(&env, "UNSET"), Ok(None));
}

#[test]
fn get_env_bool_is_on_for_anything_but_zero() {
    let env = env_of(&[
        ("ZERO", "0"),
        ("ONE", "1"),
        ("EMPTY", ""),
        ("FALSE", "false"),
        ("ZEROS", "00"),
        ("SPACED", " 0"),
    ]);
    assert_eq!(get_env_bool(&env, "ZERO"), Ok(Some(false)));
    assert_eq!(get_env_bool(&env, "ONE"), Ok(Some(true)));
    assert_eq!(get_env_bool(&env, "EMPTY"), Ok(Some(true)));
    assert_eq!(get_env_bool(&env, "FALSE"), Ok(Some(true)));
    assert_eq!(get_env_bool(&env, "ZEROS"), Ok(Some(true)));
    assert_eq!(get_env_bool(&env, "SPACED"), Ok(Some(true)));
    assert_eq!(get_env_bool(&env, "UNSET"), Ok(None));
}

#[test]
fn a_value_that_is_not_unicode_is_an_error_under_its_name() {
    let mut env = Environment::new();
    env.set_not_unicode("KEY");
    let err = ConfigError::NotUnicode { key: "KEY".to_string() };
    assert_eq!(get_env(&env, "KEY", "default"), Err(err.clone()));
    assert_eq!(get_env_opt(&env, "KEY"), Err(err.clone()));
    assert_eq!(get_env_bool(&env, "KEY"), Err(err));
}

#[test]
fn socks_defaults() {
    let cfg = SocksConfig::new(&Environment::new(), None).unwrap();
    assert_eq!(
        cfg,
        SocksConfig {
            addr: "127.0.0.1:1080".to_string(),
            pub_addr: None,
            auth: default_auth(),
            timeout: 10,
            resolve_dns: true,
            enable_udp: false,
        }
    );
}

#[test]
fn socks_settings_are_taken_from_the_environment() {
    let env = env_of(&[
        ("REVPROXY_SOCKS_HOST", "0.0.0.0"),
        ("REVPROXY_SOCKS_PORT", "11080"),
        ("REVPROXY_PUB_ADDR", "203.0.113.7"),
        ("REVPROXY_SOCKS_AUTH_METHOD", "userpass"),
        ("REVPROXY_SOCKS_AUTH_USER", "alice"),
        ("REVPROXY_SOCKS_AUTH_PASS", "s3cret"),
        ("REVPROXY_SOCKS_TIMEOUT", "30"),
        ("REVPROXY_SOCKS_ENABLE_UDP", "1"),
        ("REVPROXY_SOCKS_RESOLVE_DNS", "0"),
    ]);
    let cfg = SocksConfig::new(&env, Some(PUBLIC)).unwrap();
    assert_eq!(
        cfg,
        SocksConfig {
            addr: "0.0.0.0:11080".to_string(),
            pub_addr: Some(PUBLIC),
            auth: Auth::UserPass { username: "alice".to_string(), password: "s3cret".to_string() },
            timeout: 30,
            resolve_dns: false,
            enable_udp: true,
        }
    );
}

#[test]
fn socks_port_is_written_without_sign_or_leading_zeros() {
    let env = env_of(&[("REVPROXY_SOCKS_PORT", "+0080")]);
    assert_eq!(SocksConfig::new(&env, None).unwrap().addr, "127.0.0.1:80");
}

#[test]
fn socks_port_must_be_a_port() {
    for text in ["", "socks", "-1", "65536", "1080 ", "10 80"] {
        let env = env_of(&[("REVPROXY_SOCKS_PORT", text)]);
        assert_eq!(
            SocksConfig::new(&env, None),
            Err(ConfigError::InvalidPort { key: "REVPROXY_SOCKS_PORT".to_string() })
        );
    }
}

#[test]
fn public_address_must_be_an_address() {
    let env = env_of(&[("REVPROXY_PUB_ADDR", "not an address")]);
    assert_eq!(SocksConfig::new(&env, None), Err(ConfigError::InvalidIpAddress));
}

#[test]
fn public_address_counts_only_where_the_variable_is_set() {
    let cfg = SocksConfig::new(&Environment::new(), Some(PUBLIC)).unwrap();
    assert_eq!(cfg.pub_addr, None);
    let v6 = IpAddress::V6([0x20, 0x01, 0x0d, 0xb8, 0, 0, 0, 0, 0, 0, 0, 0, 0, 0, 0, 1]);
    let env = env_of(&[("REVPROXY_PUB_ADDR", "2001:db8::1")]);
    assert_eq!(SocksConfig::new(&env, Some(v6)).unwrap().pub_addr, Some(v6));
}

#[test]
fn auth_method_names() {
    let env = env_of(&[("REVPROXY_SOCKS_AUTH_METHOD", "no_auth")]);
    assert_eq!(SocksConfig::new(&env, None).unwrap().auth, Auth::NoAuth);
    let env = env_of(&[("REVPROXY_SOCKS_AUTH_METHOD", "ldap")]);
    assert_eq!(SocksConfig::new(&env, None).unwrap().auth, Auth::Ldap);
    let env = env_of(&[("REVPROXY_SOCKS_AUTH_METHOD", "userpass")]);
    assert_eq!(SocksConfig::new(&env, None).unwrap().auth, default_auth());
    let env = env_of(&[("REVPROXY_HTTP_AUTH_METHOD", "no_auth")]);
    assert_eq!(HttpConfig::new(&env).unwrap().auth, Auth::NoAuth);
    let env = env_of(&[("REVPROXY_HTTP_AUTH_METHOD", "ldap")]);
    assert_eq!(HttpConfig::new(&env).unwrap().auth, Auth::Ldap);
}

#[test]
fn auth_method_must_be_known() {
    for name in ["", "none", "NO_AUTH", "userpass ", "Ldap", "no-auth"] {
        let env = env_of(&[("REVPROXY_SOCKS_AUTH_METHOD", name)]);
        assert_eq!(
            SocksConfig::new(&env, None),
            Err(ConfigError::InvalidAuthMethod { method: name.to_string() })
        );
        let env = env_of(&[("REVPROXY_HTTP_AUTH_METHOD", name)]);
        assert_eq!(
            HttpConfig::new(&env),
            Err(ConfigError::InvalidAuthMethod { method: name.to_string() })
        );
    }
}

#[test]
fn credentials_count_for_userpass_only() {
    let mut env = env_of(&[("REVPROXY_SOCKS_AUTH_METHOD", "no_auth")]);
    env.set_not_unicode("REVPROXY_SOCKS_AUTH_USER");
    env.set_not_unicode("REVPROXY_SOCKS_AUTH_PASS");
    assert_eq!(SocksConfig::new(&env, None).unwrap().auth, Auth::NoAuth);
    env.set("REVPROXY_SOCKS_AUTH_METHOD", "userpass");
    assert_eq!(
        SocksConfig::new(&env, None),
        Err(ConfigError::NotUnicode { key: "REVPROXY_SOCKS_AUTH_USER".to_string() })
    );
    env.set("REVPROXY_SOCKS_AUTH_USER", "alice");
    assert_eq!(
        SocksConfig::new(&env, None),
        Err(ConfigError::NotUnicode { key: "REVPROXY_SOCKS_AUTH_PASS".to_string() })
    );
    env.set("REVPROXY_SOCKS_AUTH_PASS", "");
    assert_eq!(
        SocksConfig::new(&env, None).unwrap().auth,
        Auth::UserPass { username: "alice".to_string(), password: String::new() }
    );
}

#[test]
fn socks_and_http_credentials_are_separate() {
    let env = env_of(&[
        ("REVPROXY_SOCKS_AUTH_USER", "socks-user"),
        ("REVPROXY_HTTP_AUTH_PASS", "http-pass"),
    ]);
    let cfg = Config::new(&env, None).unwrap();
    assert_eq!(
        cfg.socks.auth,
        Auth::UserPass { username: "socks-user".to_string(), password: "pass".to_string() }
    );
    assert_eq!(
        cfg.http.auth,
        Auth::UserPass { username: "user".to_string(), password: "http-pass".to_string() }
    );
}

#[test]
fn timeout_must_be_a_number_of_seconds() {
    for text in ["", "soon", "-1", "1.5", "10s", "99999999999999999999999999"] {
        let env = env_of(&[("REVPROXY_SOCKS_TIMEOUT", text)]);
        assert_eq!(SocksConfig::new(&env, None), Err(ConfigError::InvalidTimeout));
    }
    let env = env_of(&[("REVPROXY_SOCKS_TIMEOUT", "0")]);
    assert_eq!(SocksConfig::new(&env, None).unwrap().timeout, 0);
    let env = env_of(&[("REVPROXY_SOCKS_TIMEOUT", "+0600")]);
    assert_eq!(SocksConfig::new(&env, None).unwrap().timeout, 600);
}

#[test]
fn switches_default_to_no_udp_and_dns() {
    let cfg = SocksConfig::new(&Environment::new(), None).unwrap();
    assert!(!cfg.enable_udp);
    assert!(cfg.resolve_dns);
    let env = env_of(&[("REVPROXY_SOCKS_ENABLE_UDP", "0"), ("REVPROXY_SOCKS_RESOLVE_DNS", "1")]);
    let cfg = SocksConfig::new(&env, None).unwrap();
    assert!(!cfg.enable_udp);
    assert!(cfg.resolve_dns);
    let env = env_of(&[("REVPROXY_SOCKS_RESOLVE_DNS", "0")]);
    assert!(!SocksConfig::new(&env, None).unwrap().resolve_dns);
    let env = env_of(&[("REVPROXY_SOCKS_RESOLVE_DNS", "no")]);
    assert!(SocksConfig::new(&env, None).unwrap().resolve_dns);
}

#[test]
fn udp_without_public_address_is_refused() {
    for on in ["1", "true", "yes", "", "off", "00"] {
        let env = env_of(&[("REVPROXY_SOCKS_ENABLE_UDP", on)]);
        assert_eq!(SocksConfig::new(&env, None), Err(ConfigError::UdpWithoutPubAddr));
        assert_eq!(SocksConfig::new(&env, Some(PUBLIC)), Err(ConfigError::UdpWithoutPubAddr));
        assert_eq!(Config::new(&env, None), Err(ConfigError::UdpWithoutPubAddr));
    }
}

#[test]
fn udp_with_public_address_is_accepted() {
    let env = env_of(&[("REVPROXY_SOCKS_ENABLE_UDP", "1"), ("REVPROXY_PUB_ADDR", "203.0.113.7")]);
    let cfg = SocksConfig::new(&env, Some(PUBLIC)).unwrap();
    assert!(cfg.enable_udp);
    assert_eq!(cfg.pub_addr, Some(PUBLIC));
}

#[test]
fn the_first_socks_setting_that_fails_is_reported() {
    let mut env = env_of(&[
        ("REVPROXY_SOCKS_PORT", "port"),
        ("REVPROXY_PUB_ADDR", "nowhere"),
        ("REVPROXY_SOCKS_AUTH_METHOD", "magic"),
        ("REVPROXY_SOCKS_TIMEOUT", "never"),
        ("REVPROXY_SOCKS_ENABLE_UDP", "1"),
    ]);
    env.set_not_unicode("REVPROXY_SOCKS_RESOLVE_DNS");
    assert_eq!(
        SocksConfig::new(&env, None),
        Err(ConfigError::InvalidPort { key: "REVPROXY_SOCKS_PORT".to_string() })
    );
    env.set("REVPROXY_SOCKS_PORT", "1080");
    assert_eq!(SocksConfig::new(&env, None), Err(ConfigError::InvalidIpAddress));
    env.set("REVPROXY_PUB_ADDR", "203.0.113.7");
    assert_eq!(
        SocksConfig::new(&env, Some(PUBLIC)),
        Err(ConfigError::InvalidAuthMethod { method: "magic".to_string() })
    );
    env.set("REVPROXY_SOCKS_AUTH_METHOD", "no_auth");
    assert_eq!(SocksConfig::new(&env, Some(PUBLIC)), Err(ConfigError::InvalidTimeout));
    env.set("REVPROXY_SOCKS_TIMEOUT", "5");
    assert_eq!(
        SocksConfig::new(&env, Some(PUBLIC)),
        Err(ConfigError::NotUnicode { key: "REVPROXY_SOCKS_RESOLVE_DNS".to_string() })
    );
    env.set("REVPROXY_SOCKS_RESOLVE_DNS", "1");
    assert!(SocksConfig::new(&env, Some(PUBLIC)).is_ok());
    env.set_not_unicode("REVPROXY_SOCKS_HOST");
    env.set("REVPROXY_SOCKS_PORT", "port");
    assert_eq!(
        SocksConfig::new(&env, Some(PUBLIC)),
        Err(ConfigError::NotUnicode { key: "REVPROXY_SOCKS_HOST".to_string() })
    );
}

#[test]
fn each_socks_variable_must_be_unicode() {
    for key in [
        "REVPROXY_SOCKS_HOST",
        "REVPROXY_SOCKS_PORT",
        "REVPROXY_PUB_ADDR",
        "REVPROXY_SOCKS_AUTH_METHOD",
        "REVPROXY_SOCKS_AUTH_USER",
        "REVPROXY_SOCKS_AUTH_PASS",
        "REVPROXY_SOCKS_TIMEOUT",
        "REVPROXY_SOCKS_ENABLE_UDP",
        "REVPROXY_SOCKS_RESOLVE_DNS",
    ] {
        let mut env = Environment::new();
        env.set_not_unicode(key);
        assert_eq!(
            SocksConfig::new(&env, None),
            Err(ConfigError::NotUnicode { key: key.to_string() })
        );
    }
}

#[test]
fn http_defaults() {
    let cfg = HttpConfig::new(&Environment::new()).unwrap();
    assert_eq!(
        cfg,
        HttpConfig { addr: "127.0.0.1:8080".to_string(), https: None, auth: default_auth() }
    );
}

#[test]
fn http_port_must_be_a_port() {
    let env = env_of(&[("REVPROXY_HTTP_PORT", "http")]);
    assert_eq!(
        HttpConfig::new(&env),
        Err(ConfigError::InvalidPort { key: "REVPROXY_HTTP_PORT".to_string() })
    );
}

#[test]
fn https_is_off_unless_switched_on() {
    let paths = [("REVPROXY_HTTPS_CERT", "cert.pem"), ("REVPROXY_HTTPS_CERT_KEY", "key.pem")];
    assert_eq!(HttpConfig::new(&env_of(&paths)).unwrap().https, None);
    let mut env = env_of(&paths);
    env.set("REVPROXY_HTTPS", "0");
    assert_eq!(HttpConfig::new(&env).unwrap().https, None);
    env.set("REVPROXY_HTTPS", "1");
    assert_eq!(
        HttpConfig::new(&env).unwrap().https,
        Some(HttpsConfig {
            host: "127.0.0.1".to_string(),
            port: 4430,
            cert_path: "cert.pem".to_string(),
            key_path: "key.pem".to_string(),
        })
    );
}

#[test]
fn https_settings_are_not_looked_at_while_https_is_off() {
    let mut env = env_of(&[("REVPROXY_HTTPS_PORT", "https")]);
    env.set_not_unicode("REVPROXY_HTTPS_HOST");
    assert_eq!(HttpConfig::new(&env).unwrap().https, None);
    env.set("REVPROXY_HTTPS", "0");
    assert_eq!(HttpConfig::new(&env).unwrap().https, None);
}

#[test]
fn https_settings_are_taken_from_the_environment() {
    let env = env_of(&[
        ("REVPROXY_HTTP_HOST", "0.0.0.0"),
        ("REVPROXY_HTTP_PORT", "80"),
        ("REVPROXY_HTTP_AUTH_METHOD", "no_auth"),
        ("REVPROXY_HTTPS", "yes"),
        ("REVPROXY_HTTPS_HOST", "::"),
        ("REVPROXY_HTTPS_PORT", "443"),
        ("REVPROXY_HTTPS_CERT", "/etc/proxy/cert.pem"),
        ("REVPROXY_HTTPS_CERT_KEY", "/etc/proxy/key.pem"),
    ]);
    let https = HttpsConfig {
        host: "::".to_string(),
        port: 443,
        cert_path: "/etc/proxy/cert.pem".to_string(),
        key_path: "/etc/proxy/key.pem".to_string(),
    };
    assert_eq!(HttpsConfig::new(&env), Ok(https.clone()));
    assert_eq!(
        HttpConfig::new(&env),
        Ok(HttpConfig { addr: "0.0.0.0:80".to_string(), https: Some(https), auth: Auth::NoAuth })
    );
}

#[test]
fn https_needs_certificate_and_key() {
    let mut env = env_of(&[("REVPROXY_HTTPS", "1")]);
    assert_eq!(HttpConfig::new(&env), Err(ConfigError::MissingCert));
    assert_eq!(HttpsConfig::new(&env), Err(ConfigError::MissingCert));
    env.set("REVPROXY_HTTPS_CERT_KEY", "key.pem");
    assert_eq!(HttpConfig::new(&env), Err(ConfigError::MissingCert));
    let mut env = env_of(&[("REVPROXY_HTTPS", "1"), ("REVPROXY_HTTPS_CERT", "cert.pem")]);
    assert_eq!(HttpConfig::new(&env), Err(ConfigError::MissingCertKey));
    assert_eq!(HttpsConfig::new(&env), Err(ConfigError::MissingCertKey));
    env.set("REVPROXY_HTTPS_CERT_KEY", "key.pem");
    assert!(HttpConfig::new(&env).is_ok());
}

#[test]
fn the_first_https_setting_that_fails_is_reported() {
    let mut env = env_of(&[("REVPROXY_HTTPS", "1"), ("REVPROXY_HTTPS_PORT", "https")]);
    env.set_not_unicode("REVPROXY_HTTPS_CERT_KEY");
    assert_eq!(
        HttpsConfig::new(&env),
        Err(ConfigError::InvalidPort { key: "REVPROXY_HTTPS_PORT".to_string() })
    );
    env.set("REVPROXY_HTTPS_PORT", "4431");
    assert_eq!(HttpsConfig::new(&env), Err(ConfigError::MissingCert));
    env.set_not_unicode("REVPROXY_HTTPS_CERT");
    assert_eq!(
        HttpsConfig::new(&env),
        Err(ConfigError::NotUnicode { key: "REVPROXY_HTTPS_CERT".to_string() })
    );
    env.set("REVPROXY_HTTPS_CERT", "cert.pem");
    assert_eq!(
        HttpsConfig::new(&env),
        Err(ConfigError::NotUnicode { key: "REVPROXY_HTTPS_CERT_KEY".to_string() })
    );
    env.set_not_unicode("REVPROXY_HTTPS_HOST");
    assert_eq!(
        HttpsConfig::new(&env),
        Err(ConfigError::NotUnicode { key: "REVPROXY_HTTPS_HOST".to_string() })
    );
}

#[test]
fn the_first_http_setting_that_fails_is_reported() {
    let mut env = env_of(&[
        ("REVPROXY_HTTP_PORT", "http"),
        ("REVPROXY_HTTP_AUTH_METHOD", "magic"),
        ("REVPROXY_HTTPS", "1"),
    ]);
    assert_eq!(
        HttpConfig::new(&env),
        Err(ConfigError::InvalidPort { key: "REVPROXY_HTTP_PORT".to_string() })
    );
    env.set("REVPROXY_HTTP_PORT", "8000");
    assert_eq!(
        HttpConfig::new(&env),
        Err(ConfigError::InvalidAuthMethod { method: "magic".to_string() })
    );
    env.set("REVPROXY_HTTP_AUTH_METHOD", "ldap");
    assert_eq!(HttpConfig::new(&env), Err(ConfigError::MissingCert));
    env.set_not_unicode("REVPROXY_HTTPS");
    assert_eq!(
        HttpConfig::new(&env),
        Err(ConfigError::NotUnicode { key: "REVPROXY_HTTPS".to_string() })
    );
}

#[test]
fn both_front_ends_are_resolved_socks_first() {
    let cfg = Config::new(&Environment::new(), None).unwrap();
    assert_eq!(cfg.socks, SocksConfig::new(&Environment::new(), None).unwrap());
    assert_eq!(cfg.http, HttpConfig::new(&Environment::new()).unwrap());
    let env = env_of(&[("REVPROXY_SOCKS_TIMEOUT", "never"), ("REVPROXY_HTTP_PORT", "http")]);
    assert_eq!(Config::new(&env, None), Err(ConfigError::InvalidTimeout));
    let env = env_of(&[("REVPROXY_HTTP_PORT", "http")]);
    assert_eq!(
        Config::new(&env, None),
        Err(ConfigError::InvalidPort { key: "REVPROXY_HTTP_PORT".to_string() })
    );
}

#[test]
fn variable_names_are_the_documented_ones() {
    assert_eq!(revproxy::config::SOCKS_HOST, "REVPROXY_SOCKS_HOST");
    assert_eq!(revproxy::config::SOCKS_PORT, "REVPROXY_SOCKS_PORT");
    assert_eq!(revproxy::config::PUB_ADDR, "REVPROXY_PUB_ADDR");
    assert_eq!(revproxy::config::SOCKS_AUTH_METHOD, "REVPROXY_SOCKS_AUTH_METHOD");
    assert_eq!(revproxy::config::SOCKS_AUTH_USER, "REVPROXY_SOCKS_AUTH_USER");
    assert_eq!(revproxy::config::SOCKS_AUTH_PASS, "REVPROXY_SOCKS_AUTH_PASS");
    assert_eq!(revproxy::config::SOCKS_TIMEOUT, "REVPROXY_SOCKS_TIMEOUT");
    assert_eq!(revproxy::config::SOCKS_ENABLE_UDP, "REVPROXY_SOCKS_ENABLE_UDP");
    assert_eq!(revproxy::config::SOCKS_RESOLVE_DNS, "REVPROXY_SOCKS_RESOLVE_DNS");
    assert_eq!(revproxy::config::HTTP_HOST, "REVPROXY_HTTP_HOST");
    assert_eq!(revproxy::config::HTTP_PORT, "REVPROXY_HTTP_PORT");
    assert_eq!(revproxy::config::HTTP_AUTH_METHOD, "REVPROXY_HTTP_AUTH_METHOD");
    assert_eq!(revproxy::config::HTTP_AUTH_USER, "REVPROXY_HTTP_AUTH_USER");
    assert_eq!(revproxy::config::HTTP_AUTH_PASS, "REVPROXY_HTTP_AUTH_PASS");
    assert_eq!(revproxy::config::HTTPS, "REVPROXY_HTTPS");
    assert_eq!(revproxy::config::HTTPS_HOST, "REVPROXY_HTTPS_HOST");
    assert_eq!(revproxy::config::HTTPS_PORT, "REVPROXY_HTTPS_PORT");
    assert_eq!(revproxy::config::HTTPS_CERT, "REVPROXY_HTTPS_CERT");
    assert_eq!(revproxy::config::HTTPS_CERT_KEY, "REVPROXY_HTTPS_CERT_KEY");
}
