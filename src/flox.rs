//! The context of a flox session and its builder.
use std::marker::PhantomData;

use vstd::prelude::*;

use crate::command_line::{pairs_view, strings_view, NixCommandLine};
use crate::error::{FloxError, RequiredField};

verus! {

/// The main API struct of flox.
///
/// A [`Flox`] value is the context of Nix invocations: one run of the
/// command line client works on one such value. It is assembled once by a
/// [`FloxBuilder`] and never changes afterwards: its fields are private and
/// every method takes `&self`. The type parameter picks the Nix backend that
/// [`Flox::nix`] hands out; it is not stored.
pub struct Flox<Nix> {
    config_dir: String,
    cache_dir: String,
    data_dir: String,
    collect_metrics: bool,
    extra_nix_args: Vec<String>,
    nix_marker: PhantomData<Nix>,
}

/// The contents of a [`Flox`] context.
pub struct FloxView {
    /// The directory of the user's flox configuration.
    pub config_dir: Seq<char>,
    pub cache_dir: Seq<char>,
    pub data_dir: Seq<char>,
    /// Whether to collect metrics of any kind (not acted on yet).
    pub collect_metrics: bool,
    /// Additional arguments for `nix`.
    pub extra_nix_args: Seq<Seq<char>>,
}

impl<Nix> View for Flox<Nix> {
    type V = FloxView;

    closed spec fn view(&self) -> FloxView {
        FloxView {
            config_dir: self.config_dir@,
            cache_dir: self.cache_dir@,
            data_dir: self.data_dir@,
            collect_metrics: self.collect_metrics,
            extra_nix_args: strings_view(self.extra_nix_args@),
        }
    }
}

/// The context whose backend is the Nix command line.
pub type DefaultFlox = Flox<NixCommandLine>;

/// The builder of a [`DefaultFlox`].
pub type DefaultFloxBuilder = FloxBuilder<NixCommandLine>;

/// A Nix backend that a [`Flox`] context can hand out.
///
/// New backends (another binary, a stub for tests) plug in here without a
/// change to [`Flox`].
pub trait NixApiExt: Sized + View {
    /// What [`NixApiExt::instance`] yields for a context, the name of the
    /// Nix binary and a successfully derived environment.
    spec fn spec_instance(
        flox: FloxView,
        nix_bin: Seq<char>,
        environment: Seq<(Seq<char>, Seq<char>)>,
    ) -> Result<Self::V, FloxError>;

    /// Creates a backend for `flox`, run as `nix_bin` in `environment`, the
    /// result of deriving the environment of the invocation. A failure to
    /// derive it is passed on unchanged.
    fn instance(
        flox: &Flox<Self>,
        nix_bin: &str,
        environment: Result<Vec<(String, String)>, anyhow::Error>,
    ) -> (r: Result<Self, FloxError>)
        ensures
            match environment {
                Err(e) => r == Err::<Self, FloxError>(FloxError::EnvironmentDerivationFailed(e)),
                Ok(env) => match Self::spec_instance(flox@, nix_bin@, pairs_view(env@)) {
                    Ok(v) => r is Ok && r->Ok_0@ == v,
                    Err(e) => r == Err::<Self, FloxError>(e),
                },
            },
    ;
}

/// Assembles a [`Flox`] context.
///
/// The three directories must be set; metrics collection defaults to off and
/// the extra Nix arguments to none.
pub struct FloxBuilder<Nix> {
    config_dir: Option<String>,
    cache_dir: Option<String>,
    data_dir: Option<String>,
    collect_metrics: Option<bool>,
    extra_nix_args: Option<Vec<String>>,
    nix_marker: PhantomData<Nix>,
}

/// What a [`FloxBuilder`] has been given so far.
pub struct FloxBuilderView {
    pub config_dir: Option<Seq<char>>,
    pub cache_dir: Option<Seq<char>>,
    pub data_dir: Option<Seq<char>>,
    pub collect_metrics: Option<bool>,
    pub extra_nix_args: Option<Seq<Seq<char>>>,
}

impl FloxBuilderView {
    /// Nothing set.
    pub open spec fn unset() -> FloxBuilderView {
        FloxBuilderView {
            config_dir: None,
            cache_dir: None,
            data_dir: None,
            collect_metrics: None,
            extra_nix_args: None,
        }
    }

    pub open spec fn with_config_dir(self, d: Seq<char>) -> FloxBuilderView {
        FloxBuilderView { config_dir: Some(d), ..self }
    }

    pub open spec fn with_cache_dir(self, d: Seq<char>) -> FloxBuilderView {
        FloxBuilderView { cache_dir: Some(d), ..self }
    }

    pub open spec fn with_data_dir(self, d: Seq<char>) -> FloxBuilderView {
        FloxBuilderView { data_dir: Some(d), ..self }
    }

    pub open spec fn with_collect_metrics(self, b: bool) -> FloxBuilderView {
        FloxBuilderView { collect_metrics: Some(b), ..self }
    }

    pub open spec fn with_extra_nix_args(self, a: Seq<Seq<char>>) -> FloxBuilderView {
        FloxBuilderView { extra_nix_args: Some(a), ..self }
    }

    /// The outcome of finishing the builder: the first unset directory, in
    /// the order configuration, cache, data; else the context, with the
    /// defaults for what was not set.
    pub open spec fn spec_build(self) -> Result<FloxView, RequiredField> {
        if self.config_dir is None {
            Err(RequiredField::ConfigDir)
        } else if self.cache_dir is None {
            Err(RequiredField::CacheDir)
        } else if self.data_dir is None {
            Err(RequiredField::DataDir)
        } else {
            Ok(
                FloxView {
                    config_dir: self.config_dir->Some_0,
                    cache_dir: self.cache_dir->Some_0,
                    data_dir: self.data_dir->Some_0,
                    collect_metrics: match self.collect_metrics {
                        Some(b) => b,
                        None => false,
                    },
                    extra_nix_args: match self.extra_nix_args {
                        Some(a) => a,
                        None => seq![],
                    },
                },
            )
        }
    }
}

impl<Nix> View for FloxBuilder<Nix> {
    type V = FloxBuilderView;

    closed spec fn view(&self) -> FloxBuilderView {
        FloxBuilderView {
            config_dir: match self.config_dir {
                Some(d) => Some(d@),
                None => None,
            },
            cache_dir: match self.cache_dir {
                Some(d) => Some(d@),
                None => None,
            },
            data_dir: match self.data_dir {
                Some(d) => Some(d@),
                None => None,
            },
            collect_metrics: self.collect_metrics,
            extra_nix_args: match self.extra_nix_args {
                Some(a) => Some(strings_view(a@)),
                None => None,
            },
        }
    }
}

impl<Nix> FloxBuilder<Nix> {
    /// A builder with nothing set.
    pub fn new() -> (r: Self)
        ensures
            r@ == FloxBuilderView::unset(),
    {
        FloxBuilder {
            config_dir: None,
            cache_dir: None,
            data_dir: None,
            collect_metrics: None,
            extra_nix_args: None,
            nix_marker: PhantomData,
        }
    }

    /// Sets the directory of the user's flox configuration.
    pub fn config_dir(self, value: String) -> (r: Self)
        ensures
            r@ == self@.with_config_dir(value@),
    {
        FloxBuilder { config_dir: Some(value), ..self }
    }

    pub fn cache_dir(self, value: String) -> (r: Self)
        ensures
            r@ == self@.with_cache_dir(value@),
    {
        FloxBuilder { cache_dir: Some(value), ..self }
    }

    pub fn data_dir(self, value: String) -> (r: Self)
        ensures
            r@ == self@.with_data_dir(value@),
    {
        FloxBuilder { data_dir: Some(value), ..self }
    }

    /// Sets whether to collect metrics.
    pub fn collect_metrics(self, value: bool) -> (r: Self)
        ensures
            r@ == self@.with_collect_metrics(value),
    {
        FloxBuilder { collect_metrics: Some(value), ..self }
    }

    /// Sets the additional arguments for `nix`.
    pub fn extra_nix_args(self, value: Vec<String>) -> (r: Self)
        ensures
            r@ == self@.with_extra_nix_args(strings_view(value@)),
    {
        FloxBuilder { extra_nix_args: Some(value), ..self }
    }

    /// Finishes the context, or names the first directory that was not set.
    pub fn build(self) -> (r: Result<Flox<Nix>, FloxError>)
        ensures
            match self@.spec_build() {
                Ok(v) => r is Ok && r->Ok_0@ == v,
                Err(f) => r == Err::<Flox<Nix>, FloxError>(FloxError::MissingRequiredField(f)),
            },
    {
        let config_dir = match self.config_dir {
            Some(d) => d,
            None => {
                return Err(FloxError::MissingRequiredField(RequiredField::ConfigDir));
            },
        };
        let cache_dir = match self.cache_dir {
            Some(d) => d,
            None => {
                return Err(FloxError::MissingRequiredField(RequiredField::CacheDir));
            },
        };
        let data_dir = match self.data_dir {
            Some(d) => d,
            None => {
                return Err(FloxError::MissingRequiredField(RequiredField::DataDir));
            },
        };
        let collect_metrics = match self.collect_metrics {
            Some(b) => b,
            None => false,
        };
        let extra_nix_args = match self.extra_nix_args {
            Some(a) => a,
            None => Vec::new(),
        };
        let flox = Flox {
            config_dir,
            cache_dir,
            data_dir,
            collect_metrics,
            extra_nix_args,
            nix_marker: PhantomData,
        };
        assert(flox@.extra_nix_args =~= self@.spec_build()->Ok_0.extra_nix_args);
        Ok(flox)
    }
}

impl<Nix> Default for FloxBuilder<Nix> {
    /// A builder with nothing set.
    fn default() -> (r: Self)
        ensures
            r@ == FloxBuilderView::unset(),
    {
        FloxBuilder::new()
    }
}

/// Finishing a builder that lacks a directory fails, and names the first one
/// missing in the order configuration, cache, data.
pub proof fn lemma_build_names_first_missing(b: FloxBuilderView)
    requires
        b.config_dir is None || b.cache_dir is None || b.data_dir is None,
    ensures
        b.spec_build() is Err,
        b.config_dir is None ==> b.spec_build() == Err::<FloxView, RequiredField>(
            RequiredField::ConfigDir,
        ),
        b.config_dir is Some && b.cache_dir is None ==> b.spec_build() == Err::<
            FloxView,
            RequiredField,
        >(RequiredField::CacheDir),
        b.config_dir is Some && b.cache_dir is Some ==> b.spec_build() == Err::<
            FloxView,
            RequiredField,
        >(RequiredField::DataDir),
{
}

/// Given the three directories, in whatever order, and nothing else, the
/// builder succeeds with metrics off and no extra Nix arguments.
pub proof fn lemma_build_defaults(c: Seq<char>, k: Seq<char>, d: Seq<char>, b: FloxBuilderView)
    requires
        b.config_dir == Some(c),
        b.cache_dir == Some(k),
        b.data_dir == Some(d),
        b.collect_metrics is None,
        b.extra_nix_args is None,
    ensures
        b.spec_build() == Ok::<FloxView, RequiredField>(
            FloxView {
                config_dir: c,
                cache_dir: k,
                data_dir: d,
                collect_metrics: false,
                extra_nix_args: seq![],
            },
        ),
        FloxBuilderView::unset().with_config_dir(c).with_cache_dir(k).with_data_dir(d)
            .spec_build() == b.spec_build(),
{
}

/// A package reference of the form `flakeref#attr.path`, as runix models
/// it; carried through unchanged.
#[verifier::external_type_specification]
#[verifier::external_body]
pub struct ExInstallable(runix::installable::Installable);

/// A handle for operations on one package, scoped to a context.
pub struct Package<'flox, Nix> {
    pub flox: &'flox Flox<Nix>,
    pub installable: runix::installable::Installable,
}

impl<'flox, Nix> Package<'flox, Nix> {
    pub fn new(flox: &'flox Flox<Nix>, installable: runix::installable::Installable) -> (r: Self)
        ensures
            r.flox == flox,
            r.installable == installable,
    {
        Package { flox, installable }
    }
}

impl<Nix: NixApiExt> Flox<Nix> {
    /// The directory of the user's flox configuration.
    pub fn config_dir(&self) -> (r: &String)
        ensures
            r@ == self@.config_dir,
    {
        &self.config_dir
    }

    pub fn cache_dir(&self) -> (r: &String)
        ensures
            r@ == self@.cache_dir,
    {
        &self.cache_dir
    }

    pub fn data_dir(&self) -> (r: &String)
        ensures
            r@ == self@.data_dir,
    {
        &self.data_dir
    }

    /// Whether to collect metrics of any kind.
    pub fn collect_metrics(&self) -> (r: bool)
        ensures
            r == self@.collect_metrics,
    {
        self.collect_metrics
    }

    /// Additional arguments for `nix`.
    pub fn extra_nix_args(&self) -> (r: &Vec<String>)
        ensures
            strings_view(r@) == self@.extra_nix_args,
    {
        &self.extra_nix_args
    }

    /// A handle for operations on `installable` within this context.
    pub fn package(&self, installable: runix::installable::Installable) -> (r: Package<'_, Nix>)
        ensures
            r.flox == self,
            r.installable == installable,
    {
        Package::new(self, installable)
    }

    /// A fresh, preconfigured instance of this context's Nix backend.
    ///
    /// `environment` is the outcome of deriving the environment of the
    /// invocation; a failure there is returned unchanged.
    pub fn nix(
        &self,
        nix_bin: &str,
        environment: Result<Vec<(String, String)>, anyhow::Error>,
    ) -> (r: Result<Nix, FloxError>)
        ensures
            match environment {
                Err(e) => r == Err::<Nix, FloxError>(FloxError::EnvironmentDerivationFailed(e)),
                Ok(env) => match Nix::spec_instance(self@, nix_bin@, pairs_view(env@)) {
                    Ok(v) => r is Ok && r->Ok_0@ == v,
                    Err(e) => r == Err::<Nix, FloxError>(e),
                },
            },
    {
        Nix::instance(self, nix_bin, environment)
    }
}

} // verus!
