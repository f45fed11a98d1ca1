//! Configuration of the log file parser.
use vstd::prelude::*;

pub mod utils;

verus! {

/// Parsing options to instruct the parser.
pub struct ParserOptions {
    /// Line range to parse, from a colon-delimited string ("0:100").
    pub line_range: Option<[u32; 2]>,
    /// Date range to parse, from a double-colon-delimited string
    /// ("2022-01-01 08:00::2022-01-02 08:00").
    pub date_range: Option<[String; 2]>,
    /// Function to parse for ("my_function()").
    pub function: Option<String>,
}

impl ParserOptions {
    pub fn new(
        line_range: Option<[u32; 2]>,
        date_range: Option<[String; 2]>,
        function: Option<String>,
    ) -> (r: ParserOptions)
        ensures
            r == (ParserOptions { line_range, date_range, function }),
    {
        ParserOptions { line_range, date_range, function }
    }
}

/// Configuration for the log file parser.
pub struct ParserConfig {
    /// Relative or absolute path to the target log file.
    pub filepath: String,
    /// Options to configure the parser with.
    pub options: ParserOptions,
}

impl ParserConfig {
    pub fn new(filepath: String, options: ParserOptions) -> (r: ParserConfig)
        ensures
            r == (ParserConfig { filepath, options }),
    {
        ParserConfig { filepath, options }
    }
}

/// Parser used to parse log files.
pub struct Parser {
    /// Parser configuration.
    pub config: ParserConfig,
}

impl Parser {
    pub fn new(config: ParserConfig) -> (r: Parser)
        ensures
            r == (Parser { config }),
    {
        Parser { config }
    }
}

} // verus!
