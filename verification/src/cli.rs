//! Choices the command line offers, as plain enums.
use vstd::prelude::*;

verus! {

/// How command output is written: chosen by the terminal, JSON, or a text table.
#[derive(PartialEq, Eq, Structural, Clone, Copy, Debug)]
pub enum OutputFormat {
    Auto,
    Json,
    Table,
}

/// A Zoho service to log in to or out of.
#[derive(PartialEq, Eq, Structural, Clone, Copy, Debug)]
pub enum AuthServiceArg {
    Mail,
    Calendar,
    Drive,
}

/// A topic of the built-in guide.
#[derive(PartialEq, Eq, Structural, Clone, Copy, Debug)]
pub enum GuideTopicArg {
    All,
    Account,
    Auth,
    Mail,
    Calendar,
    Drive,
}

/// An MCP client that the server can be installed into.
#[derive(PartialEq, Eq, Structural, Clone, Copy, Debug)]
pub enum McpClientArg {
    Claude,
    ClaudeDesktop,
    Codex,
    Gemini,
    Warp,
    Zed,
    Cursor,
    Antigravity,
    Windsurf,
}

/// How the MCP server is reached.
#[derive(PartialEq, Eq, Structural, Clone, Copy, Debug)]
pub enum McpTransportArg {
    Stdio,
    Http,
}

impl McpTransportArg {
    pub fn label(self) -> (r: &'static str)
        ensures
            r@ == (match self {
                McpTransportArg::Stdio => "stdio"@,
                McpTransportArg::Http => "http"@,
            }),
    {
        match self {
            McpTransportArg::Stdio => "stdio",
            McpTransportArg::Http => "http",
        }
    }
}

} // verus!
