//! The Elixir provider: detects Mix projects and plans their build.
use vstd::prelude::*;
use crate::plan::{BuildPlan, Phase, Pkg, StartPhase, strings_view, pkgs_view};
use crate::provider::Provider;
use crate::project::{App, Environment, ProviderError, config_variable, has_file, read_spec};
use crate::text::{CharClass, chars_of, is_space, lemma_skip_run, skip_while, slice_of, trim};
use crate::version::{
    DEFAULT_ELIXIR_PKG_NAME, default_package, hint_package, manifest_hint, manifest_hint_range,
    package_for_chars, package_for_hint, table_package, version_pair,
};

verus! {

/// The manifest whose presence marks a Mix project.
pub const MANIFEST_FILE: &'static str = "mix.exs";

/// The file that pins the Elixir version of a project.
pub const VERSION_FILE: &'static str = ".elixir-version";

/// The configuration variable that overrides the Elixir version.
pub const VERSION_VARIABLE: &'static str = "ELIXIR_VERSION";

/// The revision of the package repository that Elixir packages are taken from.
pub const ELIXIR_NIXPKGS_ARCHIVE: &'static str = "ef99fa5c5ed624460217c31ac4271cfb5cb2502c";

/// The version hint of a project: the override if set, else the pin file if there is
/// one, else what the manifest declares. A source is read only when every source
/// before it gave nothing.
pub open spec fn version_hint(
    files: Seq<(Seq<char>, Option<Seq<char>>)>,
    vars: Seq<(Seq<char>, Seq<char>)>,
) -> Result<Option<Seq<char>>, ProviderError> {
    let custom = config_variable(vars, VERSION_VARIABLE@);
    if custom is Some {
        Ok(custom)
    } else if has_file(files, VERSION_FILE@) {
        match read_spec(files, VERSION_FILE@) {
            Err(e) => Err(e),
            Ok(pin) => Ok(Some(pin)),
        }
    } else {
        match read_spec(files, MANIFEST_FILE@) {
            Err(e) => Err(e),
            Ok(mix) => Ok(manifest_hint(mix)),
        }
    }
}

/// The Elixir package a project builds with.
pub open spec fn resolved_package(
    files: Seq<(Seq<char>, Option<Seq<char>>)>,
    vars: Seq<(Seq<char>, Seq<char>)>,
) -> Result<Seq<char>, ProviderError> {
    match version_hint(files, vars) {
        Err(e) => Err(e),
        Ok(hint) => Ok(hint_package(hint)),
    }
}

/// The plan of an Elixir project built with `pkg`: setup, install and build in this
/// order, and a start command that keeps the program running.
pub open spec fn is_elixir_plan(plan: BuildPlan, pkg: Seq<char>) -> bool {
    &&& plan.phases@.len() == 3
    &&& plan.phases@[0].name@ == "setup"@
    &&& plan.phases@[0].cmds@.len() == 0
    &&& pkgs_view(plan.phases@[0].nix_pkgs@) == seq![pkg]
    &&& plan.phases@[0].nixpkgs_archive matches Some(a) && a@ == ELIXIR_NIXPKGS_ARCHIVE@
    &&& plan.phases@[1].name@ == "install"@
    &&& strings_view(plan.phases@[1].cmds@) == seq![
        "mix local.hex --force"@,
        "mix local.rebar --force"@,
        "mix deps.get"@,
    ]
    &&& plan.phases@[1].nix_pkgs@.len() == 0
    &&& plan.phases@[1].nixpkgs_archive is None
    &&& plan.phases@[2].name@ == "build"@
    &&& strings_view(plan.phases@[2].cmds@) == seq!["mix compile"@]
    &&& plan.phases@[2].nix_pkgs@.len() == 0
    &&& plan.phases@[2].nixpkgs_archive is None
    &&& plan.start_phase matches Some(s) && s.cmd matches Some(c) && c@ == "mix run --no-halt"@
}

/// Detects Elixir projects and plans their build.
pub struct ElixirProvider;

impl Provider for ElixirProvider {
    fn name(&self) -> (r: &'static str)
        ensures
            r@ == "elixir"@,
    {
        "elixir"
    }

    /// A project is an Elixir project exactly when it has a Mix manifest.
    fn detect(&self, app: &App, _env: &Environment) -> (r: Result<bool, ProviderError>)
        ensures
            r == Ok::<bool, ProviderError>(has_file(app@, MANIFEST_FILE@)),
    {
        Ok(app.includes_file(MANIFEST_FILE))
    }

    /// The build plan of an Elixir project, or the error met reading its files.
    fn get_build_plan(&self, app: &App, env: &Environment)
        -> (r: Result<Option<BuildPlan>, ProviderError>)
        ensures
            r matches Ok(p) ==> resolved_package(app@, env@) matches Ok(pkg)
                && p matches Some(plan) && is_elixir_plan(plan, pkg),
            r matches Err(e) ==> resolved_package(app@, env@) == Err::<Seq<char>, ProviderError>(e),
    {
        let mut plan = BuildPlan::new();

        let elixir_pkg = match ElixirProvider::get_nix_elixir_package(app, env) {
            Ok(p) => p,
            Err(e) => return Err(e),
        };
        let ghost pkg = elixir_pkg@;
        let mut setup_phase = Phase::setup(Some(vec![elixir_pkg]));
        setup_phase.set_nix_archive(String::from_str(ELIXIR_NIXPKGS_ARCHIVE));
        plan.add_phase(setup_phase);

        let mut install_phase = Phase::install(Some(String::from_str("mix local.hex --force")));
        install_phase.add_cmd(String::from_str("mix local.rebar --force"));
        install_phase.add_cmd(String::from_str("mix deps.get"));
        plan.add_phase(install_phase);

        let build_phase = Phase::build(Some(String::from_str("mix compile")));
        plan.add_phase(build_phase);

        let start_phase = StartPhase::new(String::from_str("mix run --no-halt"));
        plan.set_start_phase(start_phase);

        assert(pkgs_view(plan.phases@[0].nix_pkgs@) =~= seq![pkg]);
        assert(strings_view(plan.phases@[1].cmds@) =~= seq![
            "mix local.hex --force"@,
            "mix local.rebar --force"@,
            "mix deps.get"@,
        ]);
        Ok(Some(plan))
    }
}

impl ElixirProvider {
    /// The Elixir package the project builds with.
    pub fn get_nix_elixir_package(app: &App, env: &Environment) -> (r: Result<Pkg, ProviderError>)
        ensures
            r matches Ok(p) ==> resolved_package(app@, env@) == Ok::<Seq<char>, ProviderError>(p@),
            r matches Err(e) ==> resolved_package(app@, env@) == Err::<Seq<char>, ProviderError>(e),
    {
        let custom_version = env.get_config_variable(VERSION_VARIABLE);
        let name = match custom_version {
            Some(v) => package_for_hint(v.as_str()),
            None => {
                if app.includes_file(VERSION_FILE) {
                    match app.read_file(VERSION_FILE) {
                        Ok(pin) => package_for_hint(pin.as_str()),
                        Err(e) => return Err(e),
                    }
                } else {
                    let mix_exs_content = match app.read_file(MANIFEST_FILE) {
                        Ok(c) => c,
                        Err(e) => return Err(e),
                    };
                    let mix = chars_of(mix_exs_content.as_str());
                    match manifest_hint_range(&mix) {
                        Some((lo, hi)) => package_for_chars(&slice_of(&mix, lo, hi)),
                        None => String::from_str(DEFAULT_ELIXIR_PKG_NAME),
                    }
                }
            },
        };
        Ok(Pkg { name })
    }
}

/// An override decides the package alone: two projects with the same override get
/// the override's package, whatever their pin files and manifests hold, whether they
/// have them, and whether they can be read.
pub proof fn law_override_decides(
    files1: Seq<(Seq<char>, Option<Seq<char>>)>,
    files2: Seq<(Seq<char>, Option<Seq<char>>)>,
    vars: Seq<(Seq<char>, Seq<char>)>,
    custom: Seq<char>,
)
    requires
        config_variable(vars, VERSION_VARIABLE@) == Some(custom),
    ensures
        resolved_package(files1, vars) == Ok::<Seq<char>, ProviderError>(
            hint_package(Some(custom)),
        ),
        resolved_package(files1, vars) == resolved_package(files2, vars),
{
}

/// Without an override, a readable pin file decides the package, whatever the
/// manifest declares and whether it can be read; a pin file of white space alone
/// still does, and gives the default package.
pub proof fn law_pin_file_decides(
    files: Seq<(Seq<char>, Option<Seq<char>>)>,
    vars: Seq<(Seq<char>, Seq<char>)>,
    pin: Seq<char>,
)
    requires
        config_variable(vars, VERSION_VARIABLE@) is None,
        read_spec(files, VERSION_FILE@) == Ok::<Seq<char>, ProviderError>(pin),
    ensures
        resolved_package(files, vars) == Ok::<Seq<char>, ProviderError>(hint_package(Some(pin))),
        (forall|i: int| 0 <= i < pin.len() ==> is_space(#[trigger] pin[i])) ==> resolved_package(
            files,
            vars,
        ) == Ok::<Seq<char>, ProviderError>(default_package()),
{
    if forall|i: int| 0 <= i < pin.len() ==> is_space(#[trigger] pin[i]) {
        lemma_skip_run(pin, 0, pin.len() as int, CharClass::Space);
        let t = trim(pin);
        assert(t.len() == 0);
        lemma_skip_run(t, 0, 0, CharClass::Lead);
        lemma_skip_run(t, 0, 0, CharClass::Digit);
        lemma_skip_run(t, 0, 0, CharClass::Dot);
        assert(version_pair(t) == Some((Seq::<char>::empty(), Seq::<char>::empty())));
        assert(table_package(Seq::<char>::empty(), Seq::<char>::empty()) is None);
    }
}

/// A project with a readable manifest that declares no version, and with neither an
/// override nor a pin file, gets the default package without error.
pub proof fn law_no_hint_gives_default(
    files: Seq<(Seq<char>, Option<Seq<char>>)>,
    vars: Seq<(Seq<char>, Seq<char>)>,
    manifest: Seq<char>,
)
    requires
        read_spec(files, MANIFEST_FILE@) == Ok::<Seq<char>, ProviderError>(manifest),
        manifest_hint(manifest) is None,
        config_variable(vars, VERSION_VARIABLE@) is None,
        !has_file(files, VERSION_FILE@),
    ensures
        resolved_package(files, vars) == Ok::<Seq<char>, ProviderError>(default_package()),
{
}

/// Resolution fails only on the source it settles on: without an override, on a pin
/// file that cannot be read, or, without a pin file either, on a manifest that is
/// missing or cannot be read.
pub proof fn law_errors_come_from_the_source_read(
    files: Seq<(Seq<char>, Option<Seq<char>>)>,
    vars: Seq<(Seq<char>, Seq<char>)>,
)
    ensures
        resolved_package(files, vars) is Err <==> config_variable(vars, VERSION_VARIABLE@) is None
            && ((has_file(files, VERSION_FILE@) && read_spec(files, VERSION_FILE@) is Err) || (
        !has_file(files, VERSION_FILE@) && read_spec(files, MANIFEST_FILE@) is Err)),
{
}

} // verus!
