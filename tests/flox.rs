use flox_rust_sdk::{
    DefaultFlox, DefaultFloxBuilder, FloxError, NixApiExt, NixCommandLine, NixConfig,
    RequiredField,
};
use runix::installable::Installable;

fn s(x: &str) -> String {
    x.to_string()
}

fn context() -> DefaultFlox {
    DefaultFloxBuilder::new()
        .config_dir(s("/c"))
        .cache_dir(s("/k"))
        .data_dir(s("/d"))
        .build()
        .unwrap()
}

fn missing(result: Result<DefaultFlox, FloxError>) -> RequiredField {
    match result {
        Err(FloxError::MissingRequiredField(f)) => f,
        Err(e) => panic!("unexpected error {:?}", e),
        Ok(_) => panic!("build succeeded without a directory"),
    }
}

#[test]
fn build_names_first_missing_directory() {
    for mask in 0u8..7 {
        let mut b = DefaultFloxBuilder::new();
        if mask & 1 != 0 {
            b = b.config_dir(s("/c"));
        }
        if mask & 2 != 0 {
            b = b.cache_dir(s("/k"));
        }
        if mask & 4 != 0 {
            b = b.data_dir(s("/d"));
        }
        let expected = if mask & 1 == 0 {
            RequiredField::ConfigDir
        } else if mask & 2 == 0 {
            RequiredField::CacheDir
        } else {
            RequiredField::DataDir
        };
        assert_eq!(missing(b.build()), expected, "mask {}", mask);
    }
}

#[test]
fn build_with_nothing_set_names_config_dir() {
    let b: DefaultFloxBuilder = Default::default();
    assert_eq!(missing(b.build()), RequiredField::ConfigDir);
}

#[test]
fn required_field_names() {
    assert_eq!(RequiredField::ConfigDir.name(), "config_dir");
    assert_eq!(RequiredField::CacheDir.name(), "cache_dir");
    assert_eq!(RequiredField::DataDir.name(), "data_dir");
}

#[test]
fn build_defaults_optional_fields() {
    let flox = context();
    assert_eq!(flox.config_dir(), "/c");
    assert_eq!(flox.cache_dir(), "/k");
    assert_eq!(flox.data_dir(), "/d");
    assert!(!flox.collect_metrics());
    assert!(flox.extra_nix_args().is_empty());
}

#[test]
fn build_in_another_order_keeps_values() {
    let flox = DefaultFloxBuilder::new()
        .data_dir(s("/d"))
        .config_dir(s("/c"))
        .cache_dir(s("/k"))
        .build()
        .unwrap();
    assert_eq!(flox.config_dir(), "/c");
    assert_eq!(flox.cache_dir(), "/k");
    assert_eq!(flox.data_dir(), "/d");
}

#[test]
fn build_keeps_overrides() {
    let flox = DefaultFloxBuilder::new()
        .config_dir(s("/c"))
        .cache_dir(s("/k"))
        .data_dir(s("/d"))
        .collect_metrics(true)
        .extra_nix_args(vec![s("--offline"), s("-L")])
        .build()
        .unwrap();
    assert!(flox.collect_metrics());
    assert_eq!(flox.extra_nix_args(), &vec![s("--offline"), s("-L")]);
}

#[test]
fn setting_a_directory_twice_keeps_the_last() {
    let flox = DefaultFloxBuilder::new()
        .config_dir(s("/old"))
        .config_dir(s("/c"))
        .cache_dir(s("/k"))
        .data_dir(s("/d"))
        .build()
        .unwrap();
    assert_eq!(flox.config_dir(), "/c");
}

#[test]
fn nix_scenario_enables_features() {
    let flox = context();
    let nix = flox.nix("nix", Ok(vec![])).unwrap();
    assert_eq!(
        nix.config_args.extra_experimental_features,
        vec![s("nix-command"), s("flakes")]
    );
}

fn assert_flox_settings(config: &NixConfig) {
    assert!(config.accept_flake_config);
    assert!(!config.warn_dirty);
    assert_eq!(config.extra_experimental_features, vec![s("nix-command"), s("flakes")]);
    assert_eq!(config.extra_substituters, vec![s("https://cache.floxdev.com?trusted=1")]);
    assert_eq!(config.connect_timeout, 0);
    assert!(config.extra_access_tokens.is_empty());
    assert!(config.extra_trusted_public_keys.is_empty());
    assert_eq!(config.flake_registry, None);
    assert_eq!(config.netrc_file, None);
    assert!(!config.show_trace);
}

#[test]
fn nix_settings_are_the_same_on_every_call() {
    let flox = context();
    let first = flox.nix("/bin/nix", Ok(vec![(s("HOME"), s("/home/u"))])).unwrap();
    let second = flox.nix("nix", Ok(vec![])).unwrap();
    assert_flox_settings(&first.config_args);
    assert_flox_settings(&second.config_args);
    assert!(first.flake_args.override_inputs.is_empty());
    assert!(!first.flake_args.no_write_lock_file);
    assert!(!first.eval_args.impure);
}

#[test]
fn nix_uses_binary_and_environment() {
    let flox = context();
    let env = vec![(s("HOME"), s("/home/u")), (s("PATH"), s("/bin"))];
    let nix = flox.nix("/opt/nix/bin/nix", Ok(env.clone())).unwrap();
    assert_eq!(nix.nix_bin, Some(s("/opt/nix/bin/nix")));
    assert_eq!(nix.environment, env);
}

#[test]
fn nix_instances_are_independent() {
    let flox = context();
    let mut first = flox.nix("nix", Ok(vec![])).unwrap();
    let second = flox.nix("nix", Ok(vec![])).unwrap();
    first.config_args.extra_experimental_features.push(s("ca-derivations"));
    first.environment.push((s("X"), s("1")));
    assert_eq!(second.config_args.extra_experimental_features.len(), 2);
    assert!(second.environment.is_empty());
    let third = flox.nix("nix", Ok(vec![])).unwrap();
    assert_flox_settings(&third.config_args);
}

#[test]
fn nix_passes_environment_error_on() {
    let flox = context();
    let result = flox.nix("nix", Err(anyhow::Error::msg("no HOME")));
    match result {
        Err(FloxError::EnvironmentDerivationFailed(e)) => assert_eq!(e.to_string(), "no HOME"),
        other => panic!("unexpected result {:?}", other.map(|_| ())),
    }
}

#[test]
fn instance_is_what_nix_returns() {
    let flox = context();
    let nix = NixCommandLine::instance(&flox, "nix", Ok(vec![])).unwrap();
    assert_eq!(nix.nix_bin, Some(s("nix")));
    assert_flox_settings(&nix.config_args);
}

#[test]
fn flox_config_has_flox_settings() {
    assert_flox_settings(&NixCommandLine::flox_config());
}

#[test]
fn default_config_is_unset() {
    let config = NixConfig::default();
    assert!(!config.accept_flake_config);
    assert!(config.extra_experimental_features.is_empty());
    assert!(config.extra_substituters.is_empty());
}

#[test]
fn package_binds_installable() {
    let flox = context();
    let installable = Installable {
        flakeref: s("github:flox/floxpkgs"),
        attr_path: s("hello"),
    };
    let package = flox.package(installable);
    assert!(std::ptr::eq(package.flox, &flox));
    assert_eq!(package.installable.flakeref, "github:flox/floxpkgs");
    assert_eq!(package.installable.attr_path, "hello");
}
