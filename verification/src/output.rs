//! Command results ready to print.
use vstd::prelude::*;
use crate::cli::OutputFormat;
use crate::json::Json;

verus! {

/// A command's result in both output forms.
#[derive(Debug)]
pub struct RenderedOutput {
    pub format: OutputFormat,
    pub json: Json,
    pub table: String,
    pub exit_code: i32,
}

/// The output form actually used: `auto` becomes a table on a terminal and JSON otherwise.
pub fn effective_output_format(format: OutputFormat, stdout_is_terminal: bool) -> (r: OutputFormat)
    ensures
        format == OutputFormat::Auto && stdout_is_terminal ==> r == OutputFormat::Table,
        format == OutputFormat::Auto && !stdout_is_terminal ==> r == OutputFormat::Json,
        format != OutputFormat::Auto ==> r == format,
{
    match format {
        OutputFormat::Auto => {
            if stdout_is_terminal {
                OutputFormat::Table
            } else {
                OutputFormat::Json
            }
        },
        other => other,
    }
}

} // verus!
