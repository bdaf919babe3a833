//! The default backend: the Nix command line, preconfigured for flox.
use vstd::prelude::*;
use vstd::string::StringExecFns;

use crate::error::FloxError;
use crate::flox::{Flox, FloxView, NixApiExt};


verus! {

/// The characters of each string in a sequence.
pub open spec fn strings_view(s: Seq<String>) -> Seq<Seq<char>> {
    s.map_values(|x: String| x@)
}

/// The characters of both strings of each pair in a sequence.
pub open spec fn pairs_view(s: Seq<(String, String)>) -> Seq<(Seq<char>, Seq<char>)> {
    s.map_values(|p: (String, String)| (p.0@, p.1@))
}

/// The characters of an optional string.
pub open spec fn option_view(o: Option<String>) -> Option<Seq<char>> {
    match o {
        Some(s) => Some(s@),
        None => None,
    }
}

/// Nix settings that override `nix.conf` for an invocation.
///
/// Paths are kept as the strings that name them.
#[derive(Clone, Debug)]
pub struct NixConfig {
    pub accept_flake_config: bool,
    pub connect_timeout: u32,
    pub extra_access_tokens: Vec<(String, String)>,
    pub extra_experimental_features: Vec<String>,
    pub extra_substituters: Vec<String>,
    pub extra_trusted_public_keys: Vec<String>,
    pub flake_registry: Option<String>,
    pub netrc_file: Option<String>,
    pub show_trace: bool,
    pub warn_dirty: bool,
}

pub struct NixConfigView {
    pub accept_flake_config: bool,
    pub connect_timeout: u32,
    pub extra_access_tokens: Seq<(Seq<char>, Seq<char>)>,
    pub extra_experimental_features: Seq<Seq<char>>,
    pub extra_substituters: Seq<Seq<char>>,
    pub extra_trusted_public_keys: Seq<Seq<char>>,
    pub flake_registry: Option<Seq<char>>,
    pub netrc_file: Option<Seq<char>>,
    pub show_trace: bool,
    pub warn_dirty: bool,
}

impl NixConfigView {
    /// Every setting left at its type's default.
    pub open spec fn unset() -> NixConfigView {
        NixConfigView {
            accept_flake_config: false,
            connect_timeout: 0,
            extra_access_tokens: seq![],
            extra_experimental_features: seq![],
            extra_substituters: seq![],
            extra_trusted_public_keys: seq![],
            flake_registry: None,
            netrc_file: None,
            show_trace: false,
            warn_dirty: false,
        }
    }

    /// The settings flox runs Nix with: flake configuration accepted, no
    /// warning on a dirty tree, the `nix-command` and `flakes` features, and
    /// the flox binary cache; all others left at their defaults.
    pub open spec fn flox_settings() -> NixConfigView {
        NixConfigView {
            accept_flake_config: true,
            warn_dirty: false,
            extra_experimental_features: seq!["nix-command"@, "flakes"@],
            extra_substituters: seq!["https://cache.floxdev.com?trusted=1"@],
            ..NixConfigView::unset()
        }
    }
}

impl View for NixConfig {
    type V = NixConfigView;

    open spec fn view(&self) -> NixConfigView {
        NixConfigView {
            accept_flake_config: self.accept_flake_config,
            connect_timeout: self.connect_timeout,
            extra_access_tokens: pairs_view(self.extra_access_tokens@),
            extra_experimental_features: strings_view(self.extra_experimental_features@),
            extra_substituters: strings_view(self.extra_substituters@),
            extra_trusted_public_keys: strings_view(self.extra_trusted_public_keys@),
            flake_registry: option_view(self.flake_registry),
            netrc_file: option_view(self.netrc_file),
            show_trace: self.show_trace,
            warn_dirty: self.warn_dirty,
        }
    }
}

impl Default for NixConfig {
    fn default() -> (r: NixConfig)
        ensures
            r@ == NixConfigView::unset(),
    {
        let r = NixConfig {
            accept_flake_config: false,
            connect_timeout: 0,
            extra_access_tokens: Vec::new(),
            extra_experimental_features: Vec::new(),
            extra_substituters: Vec::new(),
            extra_trusted_public_keys: Vec::new(),
            flake_registry: None,
            netrc_file: None,
            show_trace: false,
            warn_dirty: false,
        };
        assert(r@.extra_access_tokens =~= seq![]);
        assert(r@.extra_experimental_features =~= seq![]);
        assert(r@.extra_substituters =~= seq![]);
        assert(r@.extra_trusted_public_keys =~= seq![]);
        r
    }
}

/// Arguments common to all Nix subcommands (none so far).
#[derive(Clone, Debug)]
pub struct NixCommonArgs {}

/// Flake related arguments.
#[derive(Clone, Debug)]
pub struct FlakeArgs {
    /// Pairs of flake references: the input to override and its replacement.
    pub override_inputs: Vec<(String, String)>,
    pub no_write_lock_file: bool,
}

/// Evaluation related arguments.
#[derive(Clone, Debug)]
pub struct EvaluationArgs {
    pub impure: bool,
}

impl Default for NixCommonArgs {
    fn default() -> (r: NixCommonArgs) {
        NixCommonArgs {  }
    }
}

impl Default for FlakeArgs {
    fn default() -> (r: FlakeArgs)
        ensures
            r.override_inputs@.len() == 0,
            !r.no_write_lock_file,
    {
        FlakeArgs { override_inputs: Vec::new(), no_write_lock_file: false }
    }
}

impl Default for EvaluationArgs {
    fn default() -> (r: EvaluationArgs)
        ensures
            !r.impure,
    {
        EvaluationArgs { impure: false }
    }
}

/// The Nix command line as a backend: the binary to run, its environment,
/// and the option groups passed to every invocation.
#[derive(Clone, Debug)]
pub struct NixCommandLine {
    pub nix_bin: Option<String>,
    pub environment: Vec<(String, String)>,
    pub common_args: NixCommonArgs,
    pub flake_args: FlakeArgs,
    pub eval_args: EvaluationArgs,
    pub config_args: NixConfig,
}

pub struct NixCommandLineView {
    pub nix_bin: Option<Seq<char>>,
    pub environment: Seq<(Seq<char>, Seq<char>)>,
    pub override_inputs: Seq<(Seq<char>, Seq<char>)>,
    pub no_write_lock_file: bool,
    pub impure: bool,
    pub config: NixConfigView,
}

impl View for NixCommandLine {
    type V = NixCommandLineView;

    open spec fn view(&self) -> NixCommandLineView {
        NixCommandLineView {
            nix_bin: option_view(self.nix_bin),
            environment: pairs_view(self.environment@),
            override_inputs: pairs_view(self.flake_args.override_inputs@),
            no_write_lock_file: self.flake_args.no_write_lock_file,
            impure: self.eval_args.impure,
            config: self.config_args@,
        }
    }
}

impl NixCommandLine {
    /// The settings that flox runs Nix with (see [`NixConfigView::flox_settings`]).
    pub fn flox_config() -> (r: NixConfig)
        ensures
            r@ == NixConfigView::flox_settings(),
    {
        let mut config = NixConfig::default();
        config.accept_flake_config = true;
        config.warn_dirty = false;
        config.extra_experimental_features = vec![
            String::from_str("nix-command"),
            String::from_str("flakes"),
        ];
        config.extra_substituters = vec![String::from_str("https://cache.floxdev.com?trusted=1")];
        assert(config@.extra_experimental_features =~= seq!["nix-command"@, "flakes"@]);
        assert(config@.extra_substituters =~= seq!["https://cache.floxdev.com?trusted=1"@]);
        config
    }
}

/// Every backend that a context hands out, for whatever binary and
/// environment, carries the same settings: the flox settings, default flake
/// and evaluation arguments.
pub proof fn lemma_instance_settings_fixed(
    flox1: FloxView,
    nix_bin1: Seq<char>,
    environment1: Seq<(Seq<char>, Seq<char>)>,
    flox2: FloxView,
    nix_bin2: Seq<char>,
    environment2: Seq<(Seq<char>, Seq<char>)>,
)
    ensures
        ({
            let r1 = NixCommandLine::spec_instance(flox1, nix_bin1, environment1);
            let r2 = NixCommandLine::spec_instance(flox2, nix_bin2, environment2);
            &&& r1 is Ok && r2 is Ok
            &&& r1->Ok_0.config == r2->Ok_0.config
            &&& r1->Ok_0.config == NixConfigView::flox_settings()
            &&& r1->Ok_0.config.accept_flake_config
            &&& !r1->Ok_0.config.warn_dirty
            &&& r1->Ok_0.config.extra_experimental_features == seq!["nix-command"@, "flakes"@]
            &&& r1->Ok_0.config.extra_substituters == seq![
                "https://cache.floxdev.com?trusted=1"@,
            ]
            &&& r1->Ok_0.override_inputs.len() == 0
            &&& !r1->Ok_0.no_write_lock_file
            &&& !r1->Ok_0.impure
        }),
{
}

impl NixApiExt for NixCommandLine {
    /// Nix run as the given binary, in the given environment, with default
    /// option groups and the flox settings; the context is not consulted.
    open spec fn spec_instance(
        flox: FloxView,
        nix_bin: Seq<char>,
        environment: Seq<(Seq<char>, Seq<char>)>,
    ) -> Result<NixCommandLineView, FloxError> {
        Ok(
            NixCommandLineView {
                nix_bin: Some(nix_bin),
                environment,
                override_inputs: seq![],
                no_write_lock_file: false,
                impure: false,
                config: NixConfigView::flox_settings(),
            },
        )
    }

    fn instance(
        flox: &Flox<NixCommandLine>,
        nix_bin: &str,
        environment: Result<Vec<(String, String)>, anyhow::Error>,
    ) -> (r: Result<NixCommandLine, FloxError>) {
        let nix_config = NixCommandLine::flox_config();
        let environment = match environment {
            Ok(env) => env,
            Err(e) => {
                return Err(FloxError::EnvironmentDerivationFailed(e));
            },
        };
        let flake_args = FlakeArgs::default();
        assert(pairs_view(flake_args.override_inputs@) =~= seq![]);
        Ok(
            NixCommandLine {
                nix_bin: Some(String::from_str(nix_bin)),
                environment,
                common_args: NixCommonArgs::default(),
                flake_args,
                eval_args: EvaluationArgs::default(),
                config_args: nix_config,
            },
        )
    }
}

} // verus!
