use elixir_provider::elixir::ElixirProvider;
use elixir_provider::plan::BuildPlan;
use elixir_provider::project::{App, Environment, ProviderError};
use elixir_provider::provider::Provider;

const MIX_1_13: &str = "defmodule Demo.MixProject do\n  use Mix.Project\n\n  def project do\n    [\n      app: :demo,\n      version: \"0.1.0\",\n      elixir: \"~> 1.13\"\n    ]\n  end\nend\n";

fn app_with(files: &[(&str, &str)]) -> App {
    let mut app = App::new();
    for (path, contents) in files {
        app.add_file(path, contents);
    }
    app
}

fn env_with(vars: &[(&str, &str)]) -> Environment {
    let mut env = Environment::new();
    for (name, value) in vars {
        env.add_variable(name, value);
    }
    env
}

fn package(app: &App, env: &Environment) -> String {
    ElixirProvider::get_nix_elixir_package(app, env).unwrap().name
}

fn cmds(plan: &BuildPlan, i: usize) -> Vec<&str> {
    plan.phases[i].cmds.iter().map(|c| c.as_str()).collect()
}

#[test]
fn manifest_declaration_selects_its_release() {
    let app = app_with(&[("mix.exs", MIX_1_13)]);
    assert_eq!(package(&app, &Environment::new()), "elixir_1_13");
}

#[test]
fn pin_file_selects_its_release_over_the_manifest() {
    let app = app_with(&[("mix.exs", MIX_1_13), (".elixir-version", "1.15\n")]);
    assert_eq!(package(&app, &Environment::new()), "elixir_1_15");
}

#[test]
fn unsupported_major_override_gives_default() {
    let app = app_with(&[("mix.exs", MIX_1_13)]);
    let env = env_with(&[("NIXPACKS_ELIXIR_VERSION", "2.0")]);
    assert_eq!(package(&app, &env), "elixir");
}

#[test]
fn override_wins_over_pin_file() {
    let env = env_with(&[("NIXPACKS_ELIXIR_VERSION", "1.11")]);
    for pin in ["1.15\n", "1.9", "", "garbage"] {
        let app = app_with(&[("mix.exs", MIX_1_13), (".elixir-version", pin)]);
        assert_eq!(package(&app, &env), "elixir_1_11");
    }
}

#[test]
fn override_without_prefix_is_ignored() {
    let app = app_with(&[("mix.exs", MIX_1_13)]);
    let env = env_with(&[("ELIXIR_VERSION", "1.10")]);
    assert_eq!(package(&app, &env), "elixir_1_13");
}

#[test]
fn no_hint_gives_default() {
    let app = app_with(&[("mix.exs", "defmodule Demo.MixProject do\nend\n")]);
    assert_eq!(package(&app, &Environment::new()), "elixir");
}

#[test]
fn every_table_entry_resolves() {
    let table = [
        ("1.9", "elixir_1_9"),
        ("1.10", "elixir_1_10"),
        ("1.11", "elixir_1_11"),
        ("1.12", "elixir_1_12"),
        ("1.13", "elixir_1_13"),
        ("1.14", "elixir"),
        ("1.15", "elixir_1_15"),
    ];
    let app = app_with(&[("mix.exs", "")]);
    for (hint, pkg) in table {
        let env = env_with(&[("NIXPACKS_ELIXIR_VERSION", hint)]);
        assert_eq!(package(&app, &env), pkg);
    }
}

#[test]
fn pairs_outside_the_table_give_default() {
    let app = app_with(&[("mix.exs", "")]);
    for hint in ["1.8", "1.16", "0.9", "3.13", "1", "1.", ".13", "", "   ", "1.13.0.1", "~> 1.13", "1.13x"] {
        let env = env_with(&[("NIXPACKS_ELIXIR_VERSION", hint)]);
        assert_eq!(package(&app, &env), "elixir", "hint {hint:?}");
    }
}

#[test]
fn hint_noise_is_stripped() {
    let app = app_with(&[("mix.exs", "")]);
    let cases = [
        ("1.12.3", "elixir_1_12"),
        ("\"1.12\"", "elixir_1_12"),
        ("'1.10'", "elixir_1_10"),
        ("v1.11", "elixir_1_11"),
        ("elixir-1.15.2", "elixir_1_15"),
        ("  1.9 \n", "elixir_1_9"),
        ("\u{a0}1.11\u{3000}", "elixir_1_11"),
        ("1..13", "elixir_1_13"),
    ];
    for (hint, pkg) in cases {
        let env = env_with(&[("NIXPACKS_ELIXIR_VERSION", hint)]);
        assert_eq!(package(&app, &env), pkg, "hint {hint:?}");
    }
}

#[test]
fn whitespace_pin_file_still_takes_precedence() {
    let app = app_with(&[("mix.exs", MIX_1_13), (".elixir-version", " \n\t")]);
    assert_eq!(package(&app, &Environment::new()), "elixir");
}

#[test]
fn first_manifest_declaration_wins() {
    let mix = "elixir: \"~> 1.10\"\nelixir: \"~> 1.12\"\n";
    let app = app_with(&[("mix.exs", mix)]);
    assert_eq!(package(&app, &Environment::new()), "elixir_1_10");
}

#[test]
fn manifest_version_is_taken_after_last_marker_of_the_line() {
    let mix = "      elixir: \"~> 1.13\", start_permanent: true,\n";
    let app = app_with(&[("mix.exs", mix)]);
    assert_eq!(package(&app, &Environment::new()), "elixir");
    let mix = "elixir: \">= 1.11\"\n";
    let app = app_with(&[("mix.exs", mix)]);
    assert_eq!(package(&app, &Environment::new()), "elixir_1_11");
}

#[test]
fn manifest_keyword_needs_white_space() {
    let app = app_with(&[("mix.exs", "elixir:\"~> 1.13\"\n")]);
    assert_eq!(package(&app, &Environment::new()), "elixir");
}

#[test]
fn missing_manifest_only_matters_without_other_hints() {
    let env = env_with(&[("NIXPACKS_ELIXIR_VERSION", "1.13")]);
    assert_eq!(package(&App::new(), &env), "elixir_1_13");
    let app = app_with(&[(".elixir-version", "1.15")]);
    assert_eq!(package(&app, &Environment::new()), "elixir_1_15");
    assert_eq!(
        ElixirProvider::get_nix_elixir_package(&App::new(), &Environment::new()).err(),
        Some(ProviderError::MissingFile)
    );
    let plan = ElixirProvider.get_build_plan(&App::new(), &Environment::new());
    assert_eq!(plan.err(), Some(ProviderError::MissingFile));
}

#[test]
fn unreadable_pin_file_is_an_error() {
    let mut app = app_with(&[("mix.exs", MIX_1_13)]);
    app.add_unreadable_file(".elixir-version");
    assert_eq!(
        ElixirProvider::get_nix_elixir_package(&app, &Environment::new()).err(),
        Some(ProviderError::UnreadableFile)
    );
    let plan = ElixirProvider.get_build_plan(&app, &Environment::new());
    assert_eq!(plan.err(), Some(ProviderError::UnreadableFile));
}

#[test]
fn unreadable_manifest_is_an_error() {
    let mut app = App::new();
    app.add_unreadable_file("mix.exs");
    assert_eq!(
        ElixirProvider::get_nix_elixir_package(&app, &Environment::new()).err(),
        Some(ProviderError::UnreadableFile)
    );
    let env = env_with(&[("NIXPACKS_ELIXIR_VERSION", "1.12")]);
    assert_eq!(package(&app, &env), "elixir_1_12");
    app.add_file(".elixir-version", "1.10");
    assert_eq!(package(&app, &Environment::new()), "elixir_1_10");
}

#[test]
fn unreadable_pin_file_is_ignored_under_an_override() {
    let mut app = app_with(&[("mix.exs", MIX_1_13)]);
    app.add_unreadable_file(".elixir-version");
    let env = env_with(&[("NIXPACKS_ELIXIR_VERSION", "1.9")]);
    assert_eq!(package(&app, &env), "elixir_1_9");
}

#[test]
fn non_ascii_decimal_digits_count_as_digits() {
    let app = app_with(&[("mix.exs", "")]);
    let cases = [
        ("1.15.\u{663}", "elixir_1_15"),
        ("1.13.\u{1d7d8}\u{966}", "elixir_1_13"),
        ("\u{661}.\u{661}\u{663}", "elixir"),
        ("1.1\u{663}", "elixir"),
    ];
    for (hint, pkg) in cases {
        let env = env_with(&[("NIXPACKS_ELIXIR_VERSION", hint)]);
        assert_eq!(package(&app, &env), pkg, "hint {hint:?}");
    }
}

#[test]
fn build_plan_has_fixed_phases() {
    let app = app_with(&[("mix.exs", MIX_1_13)]);
    let plan = ElixirProvider.get_build_plan(&app, &Environment::new()).unwrap().unwrap();
    let names: Vec<&str> = plan.phases.iter().map(|p| p.name.as_str()).collect();
    assert_eq!(names, vec!["setup", "install", "build"]);
    assert_eq!(plan.phases[0].nix_pkgs.len(), 1);
    assert_eq!(plan.phases[0].nix_pkgs[0].name, "elixir_1_13");
    assert_eq!(
        plan.phases[0].nixpkgs_archive.as_deref(),
        Some("ef99fa5c5ed624460217c31ac4271cfb5cb2502c")
    );
    assert!(plan.phases[0].cmds.is_empty());
    assert_eq!(
        cmds(&plan, 1),
        vec!["mix local.hex --force", "mix local.rebar --force", "mix deps.get"]
    );
    assert_eq!(cmds(&plan, 2), vec!["mix compile"]);
    let start = plan.start_phase.unwrap();
    assert_eq!(start.cmd.as_deref(), Some("mix run --no-halt"));
}

#[test]
fn detect_needs_the_manifest() {
    let env = Environment::new();
    let app = app_with(&[("mix.lock", ""), (".elixir-version", "1.15"), ("lib/demo.ex", "")]);
    assert_eq!(ElixirProvider.detect(&app, &env), Ok(false));
    assert_eq!(ElixirProvider.detect(&App::new(), &env), Ok(false));
    let app = app_with(&[("README.md", ""), ("mix.exs", MIX_1_13)]);
    assert_eq!(ElixirProvider.detect(&app, &env), Ok(true));
}

#[test]
fn provider_name() {
    assert_eq!(ElixirProvider.name(), "elixir");
}

#[test]
fn earlier_entries_take_precedence() {
    let app = app_with(&[("mix.exs", "elixir: \"~> 1.9\"\n"), ("mix.exs", MIX_1_13)]);
    assert_eq!(package(&app, &Environment::new()), "elixir_1_9");
    let env = env_with(&[("NIXPACKS_ELIXIR_VERSION", "1.10"), ("NIXPACKS_ELIXIR_VERSION", "1.11")]);
    assert_eq!(env.get_config_variable("ELIXIR_VERSION").as_deref(), Some("1.10"));
    assert_eq!(env.get_variable("NIXPACKS_ELIXIR_VERSION").as_deref(), Some("1.10"));
}
