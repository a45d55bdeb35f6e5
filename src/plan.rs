//! Build plans: the ordered phases that a build executor runs.
use vstd::prelude::*;

verus! {

/// An installable package of the system package repository.
pub struct Pkg {
    pub name: String,
}

impl View for Pkg {
    type V = Seq<char>;

    open spec fn view(&self) -> Seq<char> {
        self.name@
    }
}

impl Pkg {
    pub fn new(name: &str) -> (r: Pkg)
        ensures
            r@ == name@,
    {
        Pkg { name: String::from_str(name) }
    }
}

pub open spec fn strings_view(v: Seq<String>) -> Seq<Seq<char>> {
    v.map_values(|s: String| s@)
}

pub open spec fn pkgs_view(v: Seq<Pkg>) -> Seq<Seq<char>> {
    v.map_values(|p: Pkg| p@)
}

/// One named stage of a build: its shell commands and, for the setup stage, the
/// system packages and the pinned revision of the repository they come from.
pub struct Phase {
    pub name: String,
    pub cmds: Vec<String>,
    pub nix_pkgs: Vec<Pkg>,
    pub nixpkgs_archive: Option<String>,
}

pub open spec fn opt_view(o: Option<String>) -> Option<Seq<char>> {
    match o {
        Some(s) => Some(s@),
        None => None,
    }
}

impl Phase {
    /// A phase named `name` with nothing in it.
    pub fn new(name: &str) -> (r: Phase)
        ensures
            r.name@ == name@,
            r.cmds@.len() == 0,
            r.nix_pkgs@.len() == 0,
            r.nixpkgs_archive is None,
    {
        Phase { name: String::from_str(name), cmds: Vec::new(), nix_pkgs: Vec::new(), nixpkgs_archive: None }
    }

    /// The setup phase, installing `pkgs`.
    pub fn setup(pkgs: Option<Vec<Pkg>>) -> (r: Phase)
        ensures
            r.name@ == "setup"@,
            r.cmds@.len() == 0,
            pkgs_view(r.nix_pkgs@) == match pkgs {
                Some(v) => pkgs_view(v@),
                None => Seq::<Seq<char>>::empty(),
            },
            r.nixpkgs_archive is None,
    {
        let mut p = Phase::new("setup");
        if let Some(v) = pkgs {
            p.nix_pkgs = v;
        }
        assert(pkgs_view(Seq::<Pkg>::empty()) =~= Seq::<Seq<char>>::empty());
        p
    }

    fn with_cmd(name: &str, cmd: Option<String>) -> (r: Phase)
        ensures
            r.name@ == name@,
            strings_view(r.cmds@) == match cmd {
                Some(c) => seq![c@],
                None => Seq::<Seq<char>>::empty(),
            },
            r.nix_pkgs@.len() == 0,
            r.nixpkgs_archive is None,
    {
        let mut p = Phase::new(name);
        match cmd {
            Some(c) => {
                p.cmds.push(c);
                assert(strings_view(p.cmds@) =~= seq![c@]);
            },
            None => {
                assert(strings_view(p.cmds@) =~= Seq::<Seq<char>>::empty());
            },
        }
        p
    }

    /// The install phase, running `cmd` first.
    pub fn install(cmd: Option<String>) -> (r: Phase)
        ensures
            r.name@ == "install"@,
            strings_view(r.cmds@) == match cmd {
                Some(c) => seq![c@],
                None => Seq::<Seq<char>>::empty(),
            },
            r.nix_pkgs@.len() == 0,
            r.nixpkgs_archive is None,
    {
        Phase::with_cmd("install", cmd)
    }

    /// The build phase, running `cmd` first.
    pub fn build(cmd: Option<String>) -> (r: Phase)
        ensures
            r.name@ == "build"@,
            strings_view(r.cmds@) == match cmd {
                Some(c) => seq![c@],
                None => Seq::<Seq<char>>::empty(),
            },
            r.nix_pkgs@.len() == 0,
            r.nixpkgs_archive is None,
    {
        Phase::with_cmd("build", cmd)
    }

    /// Appends a command, run after those already there.
    pub fn add_cmd(&mut self, cmd: String)
        ensures
            strings_view(final(self).cmds@) == strings_view(old(self).cmds@).push(cmd@),
            final(self).name == old(self).name,
            final(self).nix_pkgs == old(self).nix_pkgs,
            final(self).nixpkgs_archive == old(self).nixpkgs_archive,
    {
        self.cmds.push(cmd);
        assert(strings_view(self.cmds@) =~= strings_view(old(self).cmds@).push(cmd@));
    }

    /// Pins the revision of the package repository the phase installs from.
    pub fn set_nix_archive(&mut self, archive: String)
        ensures
            final(self).nixpkgs_archive == Some(archive),
            final(self).name == old(self).name,
            final(self).cmds == old(self).cmds,
            final(self).nix_pkgs == old(self).nix_pkgs,
    {
        self.nixpkgs_archive = Some(archive);
    }
}

/// The command that starts the built program.
pub struct StartPhase {
    pub cmd: Option<String>,
}

impl StartPhase {
    pub fn new(cmd: String) -> (r: StartPhase)
        ensures
            r.cmd == Some(cmd),
    {
        StartPhase { cmd: Some(cmd) }
    }
}

/// Phases in the order they run, and the start command.
pub struct BuildPlan {
    pub phases: Vec<Phase>,
    pub start_phase: Option<StartPhase>,
}

impl BuildPlan {
    pub fn new() -> (r: BuildPlan)
        ensures
            r.phases@.len() == 0,
            r.start_phase is None,
    {
        BuildPlan { phases: Vec::new(), start_phase: None }
    }

    /// Appends a phase, run after those already there.
    pub fn add_phase(&mut self, phase: Phase)
        ensures
            final(self).phases@ == old(self).phases@.push(phase),
            final(self).start_phase == old(self).start_phase,
    {
        self.phases.push(phase);
    }

    pub fn set_start_phase(&mut self, start: StartPhase)
        ensures
            final(self).phases == old(self).phases,
            final(self).start_phase == Some(start),
    {
        self.start_phase = Some(start);
    }
}

} // verus!
