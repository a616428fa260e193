//! Verified core of the UE cache manager command-line tool: the argument
//! grammar, credential-flag resolution, the destructive-command gate, health
//! and scan tallies, INI redaction, zen endpoint and baseline bookkeeping,
//! DDC job targets, WinRM verdicts and the inventory those commands read and
//! write.

pub mod args;
pub mod credential_args;
pub mod text;
pub mod cli_parse;
pub mod grammar;
pub mod error;
pub mod output;
pub mod dispatch;
pub mod manifest;
pub mod store;
pub mod zen;
pub mod health;
pub mod machine;
pub mod ini;
pub mod ddc;
pub mod reports;
pub mod winrm;
pub mod health_run;
pub mod ini_scan;
pub mod refresh;
pub mod distribute;
pub mod projects;
pub mod command_laws;
