//! Options that a caller hands to the parser.

use vstd::prelude::*;

verus! {

/// Options for one parse.
#[derive(Debug, Clone, Copy)]
pub struct UsfxConfig {
    /// Size of the chunks in which a caller reads the source. It affects speed
    /// only; the conversion itself works on bytes that are already read.
    pub buffer_size: usize,
    /// Whether leading and trailing white space is removed from each text
    /// payload before it reaches the emission policy.
    pub trim_text: bool,
    /// Whether a caller wants diagnostic output beside the records. The
    /// conversion itself writes none.
    pub debug_output: bool,
}

impl UsfxConfig {
    /// The options in force when none are given.
    pub open spec fn defaults() -> UsfxConfig {
        UsfxConfig { buffer_size: 1024, trim_text: true, debug_output: false }
    }
}

impl Default for UsfxConfig {
    fn default() -> (config: Self)
        ensures
            config == UsfxConfig::defaults(),
    {
        UsfxConfig { buffer_size: 1024, trim_text: true, debug_output: false }
    }
}

/// Builds a [`UsfxConfig`] one option at a time, starting from the defaults.
#[derive(Debug)]
pub struct UsfxConfigBuilder {
    config: UsfxConfig,
}

impl UsfxConfigBuilder {
    /// The options that [`UsfxConfigBuilder::build`] would give now.
    pub closed spec fn current(&self) -> UsfxConfig {
        self.config
    }

    /// A builder that holds the default options.
    pub fn new() -> (builder: Self)
        ensures
            builder.current() == UsfxConfig::defaults(),
    {
        UsfxConfigBuilder { config: UsfxConfig::default() }
    }

    /// Sets the read-chunk size and leaves the other options as they are.
    pub fn buffer_size(self, size: usize) -> (builder: Self)
        ensures
            builder.current() == (UsfxConfig { buffer_size: size, ..self.current() }),
    {
        let mut builder = self;
        builder.config.buffer_size = size;
        builder
    }

    /// Sets whether text is trimmed and leaves the other options as they are.
    pub fn trim_text(self, trim: bool) -> (builder: Self)
        ensures
            builder.current() == (UsfxConfig { trim_text: trim, ..self.current() }),
    {
        let mut builder = self;
        builder.config.trim_text = trim;
        builder
    }

    /// Sets whether diagnostic output is wanted and leaves the other options
    /// as they are.
    pub fn debug_output(self, debug: bool) -> (builder: Self)
        ensures
            builder.current() == (UsfxConfig { debug_output: debug, ..self.current() }),
    {
        let mut builder = self;
        builder.config.debug_output = debug;
        builder
    }

    /// The options that were built.
    pub fn build(self) -> (config: UsfxConfig)
        ensures
            config == self.current(),
    {
        self.config
    }
}

impl Default for UsfxConfigBuilder {
    fn default() -> (builder: Self)
        ensures
            builder.current() == UsfxConfig::defaults(),
    {
        UsfxConfigBuilder::new()
    }
}

} // verus!
