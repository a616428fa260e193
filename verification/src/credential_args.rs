//! Shared `--cred-alias` / `--user --pass[--pass-stdin]` argument set, used by
//! every subcommand that authenticates against a remote host.
//!
//! Resolution happens in two steps. `resolve_plan` decides, from the flags
//! and the saved credential metadata alone, what the credential is or where
//! its secret must come from (stdin or the secret store); `complete` turns
//! that plan and the fetched secret into the `(username, password)` pair.

use vstd::prelude::*;
use crate::error::UecmError;
use crate::store::{credential_by_alias, opt_view, CredentialRecordV, Db};
use crate::text::{chars_of, concat3};

verus! {

#[derive(Debug, Clone)]
pub struct CredentialArgs {
    /// Resolve credentials from a saved alias.
    pub cred_alias: Option<String>,
    /// Inline username; use with `--pass` or `--pass-stdin`.
    pub user: Option<String>,
    /// Inline password.
    pub pass: Option<String>,
    /// Read password from stdin (one line, `\r\n` trimmed).
    pub pass_stdin: bool,
}

/// Where the credential comes from.
#[derive(Debug)]
pub enum CredentialPlan {
    /// No credential: use the caller's own Kerberos/NTLM context.
    Inherit,
    /// `--user` and `--pass` given inline.
    Inline { user: String, pass: String },
    /// `--user` given; the password is the next line of stdin.
    ReadStdin { user: String },
    /// A saved alias; the password is in the secret store under the alias.
    Stored { alias: String, username: String },
}

pub enum PlanV {
    Inherit,
    Inline { user: Seq<char>, pass: Seq<char> },
    ReadStdin { user: Seq<char> },
    Stored { alias: Seq<char>, username: Seq<char> },
}

impl View for CredentialPlan {
    type V = PlanV;

    open spec fn view(&self) -> PlanV {
        match self {
            CredentialPlan::Inherit => PlanV::Inherit,
            CredentialPlan::Inline { user, pass } => PlanV::Inline { user: user@, pass: pass@ },
            CredentialPlan::ReadStdin { user } => PlanV::ReadStdin { user: user@ },
            CredentialPlan::Stored { alias, username } => PlanV::Stored {
                alias: alias@,
                username: username@,
            },
        }
    }
}

/// The message for an alias that has no saved credential.
pub open spec fn alias_not_found_msg(alias: Seq<char>) -> Seq<char> {
    "credential alias '"@ + alias + "' not found"@
}

pub open spec fn inconsistent_msg() -> Seq<char> {
    "inconsistent credential flags"@
}

/// The inline flag combinations that make sense: `--user` with exactly one
/// of `--pass` / `--pass-stdin`, or none of the three.
pub open spec fn flags_consistent(c: CredentialArgs) -> bool {
    match (c.user, c.pass, c.pass_stdin) {
        (Some(_), Some(_), false) => true,
        (Some(_), None, true) => true,
        (None, None, false) => true,
        _ => false,
    }
}

/// What `resolve_plan` decides, over the saved credential rows.
pub open spec fn plan_spec(c: CredentialArgs, creds: Seq<CredentialRecordV>) -> Result<
    PlanV,
    Seq<char>,
> {
    match c.cred_alias {
        Some(a) => match credential_by_alias(creds, a@) {
            Some(rec) => Ok(PlanV::Stored { alias: a@, username: rec.username }),
            None => Err(alias_not_found_msg(a@)),
        },
        None => match (c.user, c.pass, c.pass_stdin) {
            (Some(u), Some(p), false) => Ok(PlanV::Inline { user: u@, pass: p@ }),
            (Some(u), None, true) => Ok(PlanV::ReadStdin { user: u@ }),
            (None, None, false) => Ok(PlanV::Inherit),
            _ => Err(inconsistent_msg()),
        },
    }
}

/// Whether `preflight` accepts the flags: the alias, if given, is saved;
/// otherwise the inline flags are consistent.
pub open spec fn preflight_ok(c: CredentialArgs, creds: Seq<CredentialRecordV>) -> bool {
    match c.cred_alias {
        Some(a) => credential_by_alias(creds, a@) is Some,
        None => flags_consistent(c),
    }
}

/// `s` without its trailing `\r` and `\n` characters.
pub open spec fn trim_line_end(s: Seq<char>) -> Seq<char>
    decreases s.len(),
{
    if s.len() > 0 && (s.last() == '\r' || s.last() == '\n') {
        trim_line_end(s.drop_last())
    } else {
        s
    }
}

/// Drops every trailing `\r` and `\n` of a line read from stdin.
pub fn trim_line_end_exec(s: &String) -> (r: String)
    ensures
        r@ == trim_line_end(s@),
{
    let v = chars_of(s.as_str());
    let mut n: usize = v.len();
    assert(v@.take(n as int) =~= v@);
    while n > 0 && (v[n - 1] == '\r' || v[n - 1] == '\n')
        invariant
            n <= v@.len(),
            trim_line_end(v@) == trim_line_end(v@.take(n as int)),
        decreases n,
    {
        assert(v@.take(n as int).drop_last() =~= v@.take(n - 1));
        n = n - 1;
    }
    assert(v@.take(n as int).len() > 0 ==> v@.take(n as int).last() == v@[n - 1]);
    crate::text::string_from_chars(crate::text::slice_chars(v.as_slice(), 0, n).as_slice())
}

impl CredentialArgs {
    /// Checks the flag combination without reading stdin or the secret
    /// store: an alias must be saved; otherwise `--user` needs exactly one of
    /// `--pass` / `--pass-stdin`, and neither password flag may stand alone.
    pub fn preflight(&self, db: &Db) -> (r: Result<(), UecmError>)
        ensures
            r is Ok <==> preflight_ok(*self, db.credential_rows()),
            r matches Err(e) ==> e matches UecmError::InvalidInput(m) && plan_spec(
                *self,
                db.credential_rows(),
            ) == Err::<PlanV, Seq<char>>(m@),
    {
        match self.resolve_plan(db) {
            Ok(_) => Ok(()),
            Err(e) => Err(e),
        }
    }

    /// Decides where the credential comes from (see `plan_spec`); fails with
    /// `InvalidInput` on an unknown alias or inconsistent flags.
    pub fn resolve_plan(&self, db: &Db) -> (r: Result<CredentialPlan, UecmError>)
        ensures
            match plan_spec(*self, db.credential_rows()) {
                Ok(p) => r matches Ok(p2) && p2@ == p,
                Err(m) => r matches Err(e) && e matches UecmError::InvalidInput(m2) && m2@ == m,
            },
    {
        if let Some(alias) = &self.cred_alias {
            return match db.find_credential(alias.as_str()) {
                Some(rec) => Ok(CredentialPlan::Stored { alias: alias.clone(), username: rec.username }),
                None => Err(UecmError::InvalidInput(concat3("credential alias '", alias.as_str(), "' not found"))),
            };
        }
        match (&self.user, &self.pass, self.pass_stdin) {
            (Some(u), Some(p), false) => Ok(CredentialPlan::Inline { user: u.clone(), pass: p.clone() }),
            (Some(u), None, true) => Ok(CredentialPlan::ReadStdin { user: u.clone() }),
            (None, None, false) => Ok(CredentialPlan::Inherit),
            _ => Err(UecmError::InvalidInput(String::from_str("inconsistent credential flags"))),
        }
    }

    /// Credential flags that stand for an already-resolved credential (or
    /// for none), so that it can be handed to several sub-commands without
    /// reading stdin or the secret store again.
    pub fn inline(resolved: Option<(String, String)>) -> (r: Self)
        ensures
            r.cred_alias is None,
            !r.pass_stdin,
            match resolved {
                Some((u, p)) => opt_view(r.user) == Some(u@) && opt_view(r.pass) == Some(p@),
                None => r.user is None && r.pass is None,
            },
    {
        match resolved {
            Some((user, pass)) => CredentialArgs {
                cred_alias: None,
                user: Some(user),
                pass: Some(pass),
                pass_stdin: false,
            },
            None => CredentialArgs { cred_alias: None, user: None, pass: None, pass_stdin: false },
        }
    }
}

/// The pair a plan resolves to, given the secret fetched for it (the stdin
/// line or the stored password; ignored by plans that need none).
pub open spec fn completed(p: PlanV, fetched: Result<Seq<char>, UecmError>) -> Result<
    Option<(Seq<char>, Seq<char>)>,
    UecmError,
> {
    match p {
        PlanV::Inherit => Ok(None),
        PlanV::Inline { user, pass } => Ok(Some((user, pass))),
        PlanV::ReadStdin { user } => match fetched {
            Ok(line) => Ok(Some((user, trim_line_end(line)))),
            Err(e) => Err(e),
        },
        PlanV::Stored { alias: _, username } => match fetched {
            Ok(pw) => Ok(Some((username, pw))),
            Err(e) => Err(e),
        },
    }
}

pub open spec fn pair_view(r: Result<Option<(String, String)>, UecmError>) -> Result<
    Option<(Seq<char>, Seq<char>)>,
    UecmError,
> {
    match r {
        Ok(Some((u, p))) => Ok(Some((u@, p@))),
        Ok(None) => Ok(None),
        Err(e) => Err(e),
    }
}

pub open spec fn fetched_view(f: Result<String, UecmError>) -> Result<Seq<char>, UecmError> {
    match f {
        Ok(s) => Ok(s@),
        Err(e) => Err(e),
    }
}

impl CredentialPlan {
    /// Whether the plan needs a secret fetched from stdin or the store.
    pub fn needs_secret(&self) -> (r: bool)
        ensures
            r == (self@ is ReadStdin || self@ is Stored),
    {
        matches!(self, CredentialPlan::ReadStdin { .. } | CredentialPlan::Stored { .. })
    }

    /// Finishes resolution: `None` means inherit the caller's context.
    pub fn complete(self, fetched: Result<String, UecmError>) -> (r: Result<
        Option<(String, String)>,
        UecmError,
    >)
        ensures
            pair_view(r) == completed(self@, fetched_view(fetched)),
    {
        match self {
            CredentialPlan::Inherit => Ok(None),
            CredentialPlan::Inline { user, pass } => Ok(Some((user, pass))),
            CredentialPlan::ReadStdin { user } => match fetched {
                Ok(line) => Ok(Some((user, trim_line_end_exec(&line)))),
                Err(e) => Err(e),
            },
            CredentialPlan::Stored { alias: _, username } => match fetched {
                Ok(pw) => Ok(Some((username, pw))),
                Err(e) => Err(e),
            },
        }
    }
}

/// `preflight` accepts exactly the flags that `resolve_plan` can resolve, so
/// a dry run never passes on flags that the real run would reject.
pub proof fn lemma_preflight_matches_plan(c: CredentialArgs, creds: Seq<CredentialRecordV>)
    ensures
        preflight_ok(c, creds) <==> plan_spec(c, creds) is Ok,
{
}

/// Inline credentials resolve to exactly the pair they were built from,
/// without reading stdin or the secret store.
pub proof fn lemma_inline_roundtrip(
    c: CredentialArgs,
    creds: Seq<CredentialRecordV>,
    resolved: Option<(Seq<char>, Seq<char>)>,
    fetched: Result<Seq<char>, UecmError>,
)
    requires
        c.cred_alias is None,
        !c.pass_stdin,
        match resolved {
            Some((u, p)) => opt_view(c.user) == Some(u) && opt_view(c.pass) == Some(p),
            None => c.user is None && c.pass is None,
        },
    ensures
        plan_spec(c, creds) matches Ok(p) && !(p is ReadStdin || p is Stored) && completed(
            p,
            fetched,
        ) == Ok::<Option<(Seq<char>, Seq<char>)>, UecmError>(resolved),
{
}

} // verus!
