//! The configuration state of the partitioner: which configuration it was
//! last given, and which seed was set after that.

use vstd::prelude::*;
use vstd::slice::slice_to_vec;
use vstd::string::StringSliceAdditionalSpecFns;
use crate::error::KaHyParError;

verus! {

/// Where a configuration comes from.
#[derive(Clone, Copy, Debug, PartialEq, Eq)]
pub enum ConfigSource {
    /// The content is the path of a configuration file.
    File,
    /// The content is the configuration text itself.
    Text,
}

/// A configuration as mathematical values: its source and its bytes. The
/// bytes are never interpreted here; only the partitioner reads them.
pub struct ConfigurationView {
    pub source: ConfigSource,
    pub content: Seq<u8>,
}

/// What a context holds, as mathematical values.
pub struct ContextView {
    /// The configuration last accepted; `None` while the context is blank.
    pub configuration: Option<ConfigurationView>,
    /// The seed set since the last configuration; `None` where the seed is
    /// whatever the configuration says.
    pub seed: Option<i32>,
}

impl ContextView {
    /// The context of a fresh start: no configuration, no seed.
    pub open spec fn blank() -> ContextView {
        ContextView { configuration: None, seed: None }
    }

    /// A configuration has been accepted.
    pub open spec fn is_configured(self) -> bool {
        self.configuration is Some
    }

    /// The context after it accepted `content` from `source`: the earlier
    /// configuration and the earlier seed are both gone.
    pub open spec fn configured(source: ConfigSource, content: Seq<u8>) -> ContextView {
        ContextView {
            configuration: Some(ConfigurationView { source, content }),
            seed: None,
        }
    }

    /// The context after an attempt to configure it with `content` from
    /// `source`: configured afresh where the attempt succeeds, as it was
    /// where it fails. `readable` says whether what the content names could
    /// be read; for a text, which names nothing, it is `true`.
    pub open spec fn after_configure(
        self,
        source: ConfigSource,
        content: Seq<u8>,
        readable: bool,
    ) -> ContextView {
        if configure_result(content, readable) is Ok {
            ContextView::configured(source, content)
        } else {
            self
        }
    }

    /// The context after the seed was set: the configuration stays.
    pub open spec fn with_seed(self, seed: i32) -> ContextView {
        ContextView { configuration: self.configuration, seed: Some(seed) }
    }
}

/// The bytes can be handed over as a C string: none of them is zero.
pub open spec fn is_c_string_payload(bytes: Seq<u8>) -> bool {
    !bytes.contains(0u8)
}

/// The result of an attempt to configure with `content`: success where the
/// content can be handed over and what it names could be read, a
/// configuration error otherwise.
pub open spec fn configure_result(content: Seq<u8>, readable: bool) -> Result<(), KaHyParError> {
    if is_c_string_payload(content) && readable {
        Ok(())
    } else {
        Err(KaHyParError::Config)
    }
}

/// Whether none of the bytes is zero.
pub fn has_no_nul(bytes: &[u8]) -> (clean: bool)
    ensures
        clean == is_c_string_payload(bytes@),
{
    let len: usize = bytes.len();
    let mut i: usize = 0;
    while i < len
        invariant
            len == bytes@.len(),
            i <= len,
            forall|j: int| 0 <= j < i ==> bytes@[j] != 0,
        decreases len - i,
    {
        if bytes[i] == 0 {
            assert(bytes@.contains(0u8));
            return false;
        }
        i += 1;
    }
    true
}

#[derive(Debug)]
struct Configuration {
    source: ConfigSource,
    content: Vec<u8>,
}

/// The configuration state behind one native partitioner context. It starts
/// blank, must be configured before it can serve a partition, may be
/// configured again, and cannot be duplicated.
#[derive(Debug)]
pub struct KaHyParContext {
    configuration: Option<Configuration>,
    seed: Option<i32>,
}

impl View for KaHyParContext {
    type V = ContextView;

    closed spec fn view(&self) -> ContextView {
        ContextView {
            configuration: match self.configuration {
                Some(configuration) => Some(
                    ConfigurationView {
                        source: configuration.source,
                        content: configuration.content@,
                    },
                ),
                None => None,
            },
            seed: self.seed,
        }
    }
}

impl KaHyParContext {
    #[verifier::type_invariant]
    spec fn well_formed(self) -> bool {
        self.configuration matches Some(configuration) ==> is_c_string_payload(
            configuration.content@,
        )
    }

    /// Creates a new blank context.
    pub fn new() -> (context: KaHyParContext)
        ensures
            context@ == ContextView::blank(),
    {
        KaHyParContext { configuration: None, seed: None }
    }

    /// Takes `content` as the new configuration, unless it holds a zero byte
    /// or what it names could not be read.
    fn accept(&mut self, source: ConfigSource, content: &str, readable: bool) -> (result: Result<
        (),
        KaHyParError,
    >)
        ensures
            result == configure_result(content.spec_bytes(), readable),
            final(self)@ == old(self)@.after_configure(source, content.spec_bytes(), readable),
    {
        let bytes = content.as_bytes();
        if !has_no_nul(bytes) || !readable {
            return Err(KaHyParError::Config);
        }
        self.configuration = Some(Configuration { source, content: slice_to_vec(bytes) });
        self.seed = None;
        Ok(())
    }

    /// Configures the context from the configuration file at `config_file`.
    /// `readable` says whether the caller found a readable file there.
    ///
    /// A path with a zero byte names no file, and a file that is not readable
    /// gives no configuration: both are refused with a configuration error,
    /// leaving the context as it was. Otherwise the path becomes the
    /// configuration, replacing the earlier one together with any seed set
    /// for it.
    pub fn configure_from_file(&mut self, config_file: &str, readable: bool) -> (result: Result<
        (),
        KaHyParError,
    >)
        ensures
            result == configure_result(config_file.spec_bytes(), readable),
            final(self)@ == old(self)@.after_configure(
                ConfigSource::File,
                config_file.spec_bytes(),
                readable,
            ),
    {
        self.accept(ConfigSource::File, config_file, readable)
    }

    /// Configures the context from the configuration text `config_string`.
    ///
    /// A text with a zero byte cannot be handed to the partitioner whole and is
    /// refused with a configuration error, leaving the context as it was. Any
    /// other text becomes the configuration, replacing the earlier one together
    /// with any seed set for it.
    pub fn configure_from_str(&mut self, config_string: &str) -> (result: Result<(), KaHyParError>)
        ensures
            result == configure_result(config_string.spec_bytes(), true),
            final(self)@ == old(self)@.after_configure(
                ConfigSource::Text,
                config_string.spec_bytes(),
                true,
            ),
    {
        self.accept(ConfigSource::Text, config_string, true)
    }

    /// Configures the context from a configuration file; the same as
    /// [`KaHyParContext::configure_from_file`].
    pub fn configure(&mut self, config_file: &str, readable: bool) -> (result: Result<
        (),
        KaHyParError,
    >)
        ensures
            result == configure_result(config_file.spec_bytes(), readable),
            final(self)@ == old(self)@.after_configure(
                ConfigSource::File,
                config_file.spec_bytes(),
                readable,
            ),
    {
        self.configure_from_file(config_file, readable)
    }

    /// Records that the partitioner did not understand the configuration
    /// last handed to it. What it holds after that is not known, so the
    /// context is blank again; the error to report is returned.
    pub fn reject_configuration(&mut self) -> (error: KaHyParError)
        ensures
            error == KaHyParError::Config,
            final(self)@ == ContextView::blank(),
    {
        self.configuration = None;
        self.seed = None;
        KaHyParError::Config
    }

    /// Sets the seed for the randomised phases of partitioning. The
    /// configuration stays as it is.
    pub fn set_seed(&mut self, seed: i32)
        ensures
            final(self)@ == old(self)@.with_seed(seed),
    {
        proof {
            use_type_invariant(&*self);
        }
        self.seed = Some(seed);
    }

    /// Whether a configuration has been accepted.
    pub fn is_configured(&self) -> (configured: bool)
        ensures
            configured == self@.is_configured(),
    {
        self.configuration.is_some()
    }

    /// The seed set since the last configuration, if any.
    pub fn seed(&self) -> (seed: Option<i32>)
        ensures
            seed == self@.seed,
    {
        self.seed
    }

    /// Where the accepted configuration comes from, if there is one.
    pub fn config_source(&self) -> (source: Option<ConfigSource>)
        ensures
            match source {
                Some(source) => self@.configuration matches Some(configuration)
                    && configuration.source == source,
                None => self@.configuration is None,
            },
    {
        match &self.configuration {
            Some(configuration) => Some(configuration.source),
            None => None,
        }
    }

    /// The bytes of the accepted configuration, if there is one: a file's
    /// path or a configuration text, free of zero bytes.
    pub fn config_content(&self) -> (content: Option<&[u8]>)
        ensures
            match content {
                Some(bytes) => self@.configuration matches Some(configuration)
                    && configuration.content == bytes@ && is_c_string_payload(bytes@),
                None => self@.configuration is None,
            },
    {
        proof {
            use_type_invariant(self);
        }
        match &self.configuration {
            Some(configuration) => Some(configuration.content.as_slice()),
            None => None,
        }
    }
}

impl Default for KaHyParContext {
    fn default() -> (context: KaHyParContext)
        ensures
            context@ == ContextView::blank(),
    {
        KaHyParContext::new()
    }
}

} // verus!
