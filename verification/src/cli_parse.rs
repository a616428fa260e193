//! A left-to-right scanner for the `uecm-cli` command line: global flags,
//! subcommand names, and per-subcommand options and positionals, with the
//! usage errors the command line can raise.

use vstd::prelude::*;
use crate::args::BackendChoice;
use crate::text::{is_lit, parse_int_exec, parse_int_in, slice_chars, split_commas, split_commas_exec, string_from_chars};

verus! {

/// How many values an option takes.
#[derive(Clone, Copy)]
pub enum Arity {
    /// A boolean switch (`--yes`).
    Flag,
    /// Exactly one value, given once (`--ip 10.0.0.1` or `--ip=10.0.0.1`).
    One,
    /// A comma-separated list; the option may repeat and the lists add up.
    Many,
}

/// What a value must read as.
#[derive(Clone, Copy)]
pub enum Kind {
    Text,
    /// A signed 64-bit integer.
    Int,
    /// An unsigned 64-bit integer.
    UInt,
    /// An unsigned 32-bit integer.
    Small,
    /// One of `auto`, `legacy`, `zen`.
    Backend,
}

/// One `--long` option of a subcommand.
#[derive(Clone, Copy)]
pub struct OptSpec {
    pub name: &'static str,
    pub arity: Arity,
    pub kind: Kind,
    pub required: bool,
}

/// One positional argument of a subcommand (all are required).
#[derive(Clone, Copy)]
pub struct PosSpec {
    pub name: &'static str,
    pub kind: Kind,
}

/// The argument shape of one subcommand.
pub struct LeafSpec {
    pub opts: Vec<OptSpec>,
    pub pos: Vec<PosSpec>,
    /// Pairs of options (indices into `opts`) that may not both be given.
    pub conflicts: Vec<(usize, usize)>,
    /// `(a, b, c)`: when `a` is given, `b` or `c` must be given too.
    pub requires: Vec<(usize, usize, usize)>,
}

#[verifier::ext_equal]
pub struct LeafV {
    pub opts: Seq<OptSpec>,
    pub pos: Seq<PosSpec>,
    pub conflicts: Seq<(usize, usize)>,
    pub requires: Seq<(usize, usize, usize)>,
}

impl View for LeafSpec {
    type V = LeafV;

    open spec fn view(&self) -> LeafV {
        LeafV {
            opts: self.opts@,
            pos: self.pos@,
            conflicts: self.conflicts@,
            requires: self.requires@,
        }
    }
}

/// Why a command line was not accepted.
#[derive(Debug, Clone)]
pub enum UsageError {
    /// `--help`, `-h` or the `help` subcommand.
    Help,
    /// `--version` or `-V` before the first subcommand.
    Version,
    UnknownArgument(String),
    /// A value was attached (`--yes=1`) to a switch.
    UnexpectedValue(String),
    MissingValue(String),
    /// The option (or positional) and the value it could not read.
    InvalidValue(String, String),
    /// A single-valued option was given twice.
    Duplicate(String),
    /// Two options that exclude each other.
    Conflict(String, String),
    MissingRequired(String),
    MissingSubcommand,
    UnknownSubcommand(String),
    /// A positional beyond those the subcommand takes.
    ExtraPositional(String),
}

pub enum UsageErrorV {
    Help,
    Version,
    UnknownArgument(Seq<char>),
    UnexpectedValue(Seq<char>),
    MissingValue(Seq<char>),
    InvalidValue(Seq<char>, Seq<char>),
    Duplicate(Seq<char>),
    Conflict(Seq<char>, Seq<char>),
    MissingRequired(Seq<char>),
    MissingSubcommand,
    UnknownSubcommand(Seq<char>),
    ExtraPositional(Seq<char>),
}

impl View for UsageError {
    type V = UsageErrorV;

    open spec fn view(&self) -> UsageErrorV {
        match self {
            UsageError::Help => UsageErrorV::Help,
            UsageError::Version => UsageErrorV::Version,
            UsageError::UnknownArgument(a) => UsageErrorV::UnknownArgument(a@),
            UsageError::UnexpectedValue(a) => UsageErrorV::UnexpectedValue(a@),
            UsageError::MissingValue(a) => UsageErrorV::MissingValue(a@),
            UsageError::InvalidValue(a, b) => UsageErrorV::InvalidValue(a@, b@),
            UsageError::Duplicate(a) => UsageErrorV::Duplicate(a@),
            UsageError::Conflict(a, b) => UsageErrorV::Conflict(a@, b@),
            UsageError::MissingRequired(a) => UsageErrorV::MissingRequired(a@),
            UsageError::MissingSubcommand => UsageErrorV::MissingSubcommand,
            UsageError::UnknownSubcommand(a) => UsageErrorV::UnknownSubcommand(a@),
            UsageError::ExtraPositional(a) => UsageErrorV::ExtraPositional(a@),
        }
    }
}

/// The options and positionals collected so far.
pub struct Scan {
    /// One entry per table option: `None` when absent, else every value given
    /// (empty for a switch).
    pub slots: Vec<Option<Vec<Vec<char>>>>,
    pub pos: Vec<Vec<char>>,
    /// Whether `--` has been seen (everything after it is positional).
    pub escaped: bool,
}

pub struct ScanV {
    pub slots: Seq<Option<Seq<Seq<char>>>>,
    pub pos: Seq<Seq<char>>,
    pub escaped: bool,
}

impl View for Scan {
    type V = ScanV;

    open spec fn view(&self) -> ScanV {
        ScanV { slots: self.slots.deep_view(), pos: self.pos.deep_view(), escaped: self.escaped }
    }
}

// ---------------------------------------------------------------------------
// token classification
// ---------------------------------------------------------------------------

pub open spec fn is_long(t: Seq<char>) -> bool {
    t.len() > 2 && t[0] == '-' && t[1] == '-'
}

/// A token that cannot serve as an option's value: it starts with `-` and is
/// longer than `-` alone.
pub open spec fn option_like(t: Seq<char>) -> bool {
    t.len() > 1 && t[0] == '-'
}

/// The index of the first `=` at or after `k` (the length when there is none).
pub open spec fn eq_from(t: Seq<char>, k: int) -> int
    decreases t.len() - k,
{
    if k >= t.len() {
        t.len() as int
    } else if t[k] == '=' {
        k
    } else {
        eq_from(t, k + 1)
    }
}

proof fn lemma_eq_from_bounds(t: Seq<char>, k: int)
    requires
        0 <= k,
    ensures
        k <= t.len() ==> k <= eq_from(t, k) <= t.len(),
        k > t.len() ==> eq_from(t, k) == t.len(),
    decreases t.len() - k,
{
    if k < t.len() && t[k] != '=' {
        lemma_eq_from_bounds(t, k + 1);
    }
}

/// The name of a `--name` or `--name=value` token.
pub open spec fn long_name(t: Seq<char>) -> Seq<char> {
    t.subrange(2, eq_from(t, 2))
}

/// The value attached with `=` to a long option, if any.
pub open spec fn long_inline(t: Seq<char>) -> Option<Seq<char>> {
    let e = eq_from(t, 2);
    if e < t.len() {
        Some(t.subrange(e + 1, t.len() as int))
    } else {
        None
    }
}

pub open spec fn find_from(table: Seq<OptSpec>, name: Seq<char>, k: int) -> Option<int>
    decreases table.len() - k,
{
    if k < 0 || k >= table.len() {
        None
    } else if table[k].name@ == name {
        Some(k)
    } else {
        find_from(table, name, k + 1)
    }
}

/// The first table entry with the given name.
pub open spec fn find_opt(table: Seq<OptSpec>, name: Seq<char>) -> Option<int> {
    find_from(table, name, 0)
}

proof fn lemma_find_from_range(table: Seq<OptSpec>, name: Seq<char>, k: int)
    ensures
        find_from(table, name, k) matches Some(j) ==> k <= j < table.len() && table[j].name@
            == name,
    decreases table.len() - k,
{
    if 0 <= k < table.len() && table[k].name@ != name {
        lemma_find_from_range(table, name, k + 1);
    }
}

pub open spec fn kind_ok(k: Kind, v: Seq<char>) -> bool {
    match k {
        Kind::Text => true,
        Kind::Int => parse_int_in(v, true, -0x8000_0000_0000_0000, 0x7fff_ffff_ffff_ffff) is Some,
        Kind::UInt => parse_int_in(v, false, 0, 0xffff_ffff_ffff_ffff) is Some,
        Kind::Small => parse_int_in(v, false, 0, 0xffff_ffff) is Some,
        Kind::Backend => v == "auto"@ || v == "legacy"@ || v == "zen"@,
    }
}

/// The first list item that does not read as `k`.
pub open spec fn bad_item(items: Seq<Seq<char>>, k: Kind) -> Option<Seq<char>>
    decreases items.len(),
{
    if items.len() == 0 {
        None
    } else if !kind_ok(k, items[0]) {
        Some(items[0])
    } else {
        bad_item(items.drop_first(), k)
    }
}

/// The value an option takes and where scanning resumes: the `=` value, else
/// the next token unless it looks like an option.
pub open spec fn take_value(toks: Seq<Seq<char>>, i: int, inline: Option<Seq<char>>) -> (
    Option<Seq<char>>,
    int,
) {
    match inline {
        Some(v) => (Some(v), i + 1),
        None => if i + 1 < toks.len() && !option_like(toks[i + 1]) {
            (Some(toks[i + 1]), i + 2)
        } else {
            (None, i + 1)
        },
    }
}

pub enum Step {
    Fail(UsageErrorV),
    /// A positional where a subcommand name is expected.
    Stop,
    Go(ScanV, int),
}

pub open spec fn option_step(
    toks: Seq<Seq<char>>,
    i: int,
    o: OptSpec,
    k: int,
    name: Seq<char>,
    inline: Option<Seq<char>>,
    st: ScanV,
) -> Step {
    match o.arity {
        Arity::Flag => if inline is Some {
            Step::Fail(UsageErrorV::UnexpectedValue(name))
        } else if st.slots[k] is Some {
            Step::Fail(UsageErrorV::Duplicate(name))
        } else {
            Step::Go(
                ScanV { slots: st.slots.update(k, Some(Seq::<Seq<char>>::empty())), ..st },
                i + 1,
            )
        },
        Arity::One => {
            let (v, j) = take_value(toks, i, inline);
            match v {
                None => Step::Fail(UsageErrorV::MissingValue(name)),
                Some(v) => if st.slots[k] is Some {
                    Step::Fail(UsageErrorV::Duplicate(name))
                } else if !kind_ok(o.kind, v) {
                    Step::Fail(UsageErrorV::InvalidValue(name, v))
                } else {
                    Step::Go(ScanV { slots: st.slots.update(k, Some(seq![v])), ..st }, j)
                },
            }
        },
        Arity::Many => {
            let (v, j) = take_value(toks, i, inline);
            match v {
                None => Step::Fail(UsageErrorV::MissingValue(name)),
                Some(v) => {
                    let items = split_commas(v);
                    match bad_item(items, o.kind) {
                        Some(b) => Step::Fail(UsageErrorV::InvalidValue(name, b)),
                        None => {
                            let prev = match st.slots[k] {
                                Some(p) => p,
                                None => Seq::<Seq<char>>::empty(),
                            };
                            Step::Go(ScanV { slots: st.slots.update(k, Some(prev + items)), ..st }, j)
                        },
                    }
                },
            }
        },
    }
}

pub open spec fn positional_step(
    t: Seq<char>,
    i: int,
    pos: Seq<PosSpec>,
    st: ScanV,
    stop_mode: bool,
) -> Step {
    if stop_mode {
        Step::Stop
    } else if st.pos.len() < pos.len() {
        let p = pos[st.pos.len() as int];
        if kind_ok(p.kind, t) {
            Step::Go(ScanV { pos: st.pos.push(t), ..st }, i + 1)
        } else {
            Step::Fail(UsageErrorV::InvalidValue(p.name@, t))
        }
    } else {
        Step::Fail(UsageErrorV::ExtraPositional(t))
    }
}

/// What the token at `i` does to the scan.
pub open spec fn step(
    toks: Seq<Seq<char>>,
    i: int,
    table: Seq<OptSpec>,
    pos: Seq<PosSpec>,
    st: ScanV,
    stop_mode: bool,
    allow_version: bool,
) -> Step {
    let t = toks[i];
    if st.escaped {
        positional_step(t, i, pos, st, stop_mode)
    } else if t == "--help"@ || t == "-h"@ {
        Step::Fail(UsageErrorV::Help)
    } else if allow_version && (t == "--version"@ || t == "-V"@) {
        Step::Fail(UsageErrorV::Version)
    } else if t == "--"@ {
        if stop_mode {
            Step::Fail(UsageErrorV::UnknownArgument(t))
        } else {
            Step::Go(ScanV { escaped: true, ..st }, i + 1)
        }
    } else if is_long(t) {
        match find_opt(table, long_name(t)) {
            None => Step::Fail(UsageErrorV::UnknownArgument(t)),
            Some(k) => option_step(toks, i, table[k], k, long_name(t), long_inline(t), st),
        }
    } else if option_like(t) {
        Step::Fail(UsageErrorV::UnknownArgument(t))
    } else {
        positional_step(t, i, pos, st, stop_mode)
    }
}

/// Scans `toks[i..]`. In stop mode the scan ends at the first positional
/// (a subcommand name) and reports its index; otherwise it runs to the end.
pub open spec fn scan(
    toks: Seq<Seq<char>>,
    i: int,
    table: Seq<OptSpec>,
    pos: Seq<PosSpec>,
    st: ScanV,
    stop_mode: bool,
    allow_version: bool,
) -> Result<(ScanV, int), UsageErrorV>
    decreases toks.len() - i,
{
    if i < 0 || i >= toks.len() {
        Ok((st, toks.len() as int))
    } else {
        match step(toks, i, table, pos, st, stop_mode, allow_version) {
            Step::Fail(e) => Err(e),
            Step::Stop => Ok((st, i)),
            Step::Go(s2, j) => if i < j {
                scan(toks, j, table, pos, s2, stop_mode, allow_version)
            } else {
                Ok((s2, j))
            },
        }
    }
}

proof fn lemma_eq_from_none(t: Seq<char>, k: int)
    requires
        0 <= k <= t.len(),
        forall|j: int| k <= j < t.len() ==> t[j] != '=',
    ensures
        eq_from(t, k) == t.len(),
    decreases t.len() - k,
{
    if k < t.len() {
        lemma_eq_from_none(t, k + 1);
    }
}

/// The name and attached value of `--name` followed by nothing: the name
/// itself, no value.
proof fn lemma_plain_long(name: Seq<char>)
    requires
        name.len() > 0,
        forall|j: int| 0 <= j < name.len() ==> name[j] != '=',
    ensures
        is_long("--"@ + name),
        long_name("--"@ + name) == name,
        long_inline("--"@ + name) is None,
{
    let t = "--"@ + name;
    reveal_strlit("--");
    assert(t[0] == '-' && t[1] == '-');
    assert forall|j: int| 2 <= j < t.len() implies t[j] != '=' by {
        assert(t[j] == name[j - 2]);
    }
    lemma_eq_from_none(t, 2);
    assert(t.subrange(2, t.len() as int) =~= name);
}

/// Meeting the token `--name` of a switch in the table (outside `--`
/// escaping, and neither a help nor a version request) marks that switch
/// given, in the slot of its name, and changes no other slot and no
/// positional; scanning resumes at the next token.
pub proof fn lemma_switch_token_fills_its_slot(
    toks: Seq<Seq<char>>,
    i: int,
    table: Seq<OptSpec>,
    pos: Seq<PosSpec>,
    st: ScanV,
    stop_mode: bool,
    allow_version: bool,
    name: Seq<char>,
)
    requires
        0 <= i < toks.len(),
        toks[i] == "--"@ + name,
        name.len() > 0,
        forall|j: int| 0 <= j < name.len() ==> name[j] != '=',
        name != "help"@,
        allow_version ==> name != "version"@,
        !st.escaped,
        find_opt(table, name) matches Some(k) && table[k].arity is Flag && 0 <= k < st.slots.len()
            && st.slots[k] is None,
    ensures
        ({
            let k = find_opt(table, name)->Some_0;
            step(toks, i, table, pos, st, stop_mode, allow_version) == Step::Go(
                ScanV { slots: st.slots.update(k, Some(Seq::<Seq<char>>::empty())), ..st },
                i + 1,
            )
        }),
{
    lemma_plain_long(name);
    reveal_strlit("--help");
    reveal_strlit("--version");
    reveal_strlit("help");
    reveal_strlit("version");
    reveal_strlit("--");
    let t = toks[i];
    assert(t != "--help"@) by {
        if t == "--help"@ {
            assert(t.subrange(2, t.len() as int) =~= name);
            assert("--help"@.subrange(2, 6) =~= "help"@);
        }
    }
    assert(allow_version ==> t != "--version"@) by {
        if allow_version && t == "--version"@ {
            assert(t.subrange(2, t.len() as int) =~= name);
            assert("--version"@.subrange(2, 9) =~= "version"@);
        }
    }
    assert(t != "-h"@ && t != "-V"@) by {
        reveal_strlit("-h");
        reveal_strlit("-V");
        assert(t.len() > 2);
    }
    assert(t != "--"@) by {
        assert(t.len() > 2);
    }
}

/// Meeting `--name value` for a single-valued option of the table that has
/// not been given yet, with a value that reads as the option's kind and
/// does not look like an option, records exactly that value in the slot of
/// its name and changes no other slot; scanning resumes after the value.
pub proof fn lemma_valued_token_fills_its_slot(
    toks: Seq<Seq<char>>,
    i: int,
    table: Seq<OptSpec>,
    pos: Seq<PosSpec>,
    st: ScanV,
    stop_mode: bool,
    allow_version: bool,
    name: Seq<char>,
)
    requires
        0 <= i && i + 1 < toks.len(),
        toks[i] == "--"@ + name,
        name.len() > 0,
        forall|j: int| 0 <= j < name.len() ==> name[j] != '=',
        name != "help"@,
        allow_version ==> name != "version"@,
        !st.escaped,
        !option_like(toks[i + 1]),
        find_opt(table, name) matches Some(k) && table[k].arity is One && 0 <= k < st.slots.len()
            && st.slots[k] is None && kind_ok(table[k].kind, toks[i + 1]),
    ensures
        ({
            let k = find_opt(table, name)->Some_0;
            step(toks, i, table, pos, st, stop_mode, allow_version) == Step::Go(
                ScanV { slots: st.slots.update(k, Some(seq![toks[i + 1]])), ..st },
                i + 2,
            )
        }),
{
    lemma_plain_long(name);
    reveal_strlit("--help");
    reveal_strlit("--version");
    reveal_strlit("help");
    reveal_strlit("version");
    reveal_strlit("--");
    let t = toks[i];
    assert(t != "--help"@) by {
        if t == "--help"@ {
            assert(t.subrange(2, t.len() as int) =~= name);
            assert("--help"@.subrange(2, 6) =~= "help"@);
        }
    }
    assert(allow_version ==> t != "--version"@) by {
        if allow_version && t == "--version"@ {
            assert(t.subrange(2, t.len() as int) =~= name);
            assert("--version"@.subrange(2, 9) =~= "version"@);
        }
    }
    assert(t != "-h"@ && t != "-V"@) by {
        reveal_strlit("-h");
        reveal_strlit("-V");
        assert(t.len() > 2);
    }
    assert(t != "--"@) by {
        assert(t.len() > 2);
    }
}

// ---------------------------------------------------------------------------
// validation after a subcommand's options are scanned
// ---------------------------------------------------------------------------

/// The first pair of excluding options that were both given. `base` is where
/// the subcommand's options start in the slot list.
pub open spec fn first_conflict(
    conf: Seq<(usize, usize)>,
    opts: Seq<OptSpec>,
    st: ScanV,
    base: int,
) -> Option<UsageErrorV>
    decreases conf.len(),
{
    if conf.len() == 0 {
        None
    } else {
        let (a, b) = conf[0];
        if st.slots[base + a] is Some && st.slots[base + b] is Some {
            Some(UsageErrorV::Conflict(opts[a as int].name@, opts[b as int].name@))
        } else {
            first_conflict(conf.drop_first(), opts, st, base)
        }
    }
}

pub open spec fn first_unmet(
    req: Seq<(usize, usize, usize)>,
    opts: Seq<OptSpec>,
    st: ScanV,
    base: int,
) -> Option<UsageErrorV>
    decreases req.len(),
{
    if req.len() == 0 {
        None
    } else {
        let (a, b, c) = req[0];
        if st.slots[base + a] is Some && st.slots[base + b] is None && st.slots[base + c] is None {
            Some(UsageErrorV::MissingRequired(opts[b as int].name@))
        } else {
            first_unmet(req.drop_first(), opts, st, base)
        }
    }
}

pub open spec fn first_missing(opts: Seq<OptSpec>, st: ScanV, base: int, k: int) -> Option<
    UsageErrorV,
>
    decreases opts.len() - k,
{
    if k < 0 || k >= opts.len() {
        None
    } else if opts[k].required && st.slots[base + k] is None {
        Some(UsageErrorV::MissingRequired(opts[k].name@))
    } else {
        first_missing(opts, st, base, k + 1)
    }
}

/// The error, if any, that a scanned subcommand raises: conflicts, then
/// unmet `requires`, then missing required options, then missing positionals.
pub open spec fn validate(lv: LeafV, st: ScanV, base: int) -> Option<UsageErrorV> {
    match first_conflict(lv.conflicts, lv.opts, st, base) {
        Some(e) => Some(e),
        None => match first_unmet(lv.requires, lv.opts, st, base) {
            Some(e) => Some(e),
            None => match first_missing(lv.opts, st, base, 0) {
                Some(e) => Some(e),
                None => if st.pos.len() < lv.pos.len() {
                    Some(UsageErrorV::MissingRequired(lv.pos[st.pos.len() as int].name@))
                } else {
                    None
                },
            },
        },
    }
}

/// Every conflict and requirement names options of the subcommand.
pub open spec fn leaf_wf(lv: LeafV) -> bool {
    &&& forall|i: int|
        0 <= i < lv.conflicts.len() ==> (#[trigger] lv.conflicts[i]).0 < lv.opts.len()
            && lv.conflicts[i].1 < lv.opts.len()
    &&& forall|i: int|
        0 <= i < lv.requires.len() ==> (#[trigger] lv.requires[i]).0 < lv.opts.len()
            && lv.requires[i].1 < lv.opts.len() && lv.requires[i].2 < lv.opts.len()
}

// ---------------------------------------------------------------------------
// executable scanner
// ---------------------------------------------------------------------------

fn find_opt_exec(table: &Vec<OptSpec>, name: &[char]) -> (r: Option<usize>)
    ensures
        r matches Some(k) ==> find_opt(table@, name@) == Some(k as int),
        r is None ==> find_opt(table@, name@) is None,
{
    let mut k: usize = 0;
    while k < table.len()
        invariant
            k <= table@.len(),
            find_opt(table@, name@) == find_from(table@, name@, k as int),
        decreases table@.len() - k,
    {
        if is_lit(name, table[k].name) {
            return Some(k);
        }
        k = k + 1;
    }
    None
}

fn eq_index_exec(t: &[char]) -> (r: usize)
    requires
        t@.len() >= 2,
    ensures
        r as int == eq_from(t@, 2),
{
    let mut j: usize = 2;
    while j < t.len()
        invariant
            2 <= j <= t@.len(),
            eq_from(t@, 2) == eq_from(t@, j as int),
        decreases t@.len() - j,
    {
        if t[j] == '=' {
            return j;
        }
        j = j + 1;
    }
    j
}

fn kind_ok_exec(k: Kind, v: &[char]) -> (r: bool)
    ensures
        r == kind_ok(k, v@),
{
    match k {
        Kind::Text => true,
        Kind::Int => parse_int_exec(v, true, -0x8000_0000_0000_0000, 0x7fff_ffff_ffff_ffff).is_some(),
        Kind::UInt => parse_int_exec(v, false, 0, 0xffff_ffff_ffff_ffff).is_some(),
        Kind::Small => parse_int_exec(v, false, 0, 0xffff_ffff).is_some(),
        Kind::Backend => is_lit(v, "auto") || is_lit(v, "legacy") || is_lit(v, "zen"),
    }
}

fn bad_item_exec(items: &Vec<Vec<char>>, k: Kind) -> (r: Option<usize>)
    ensures
        r matches Some(j) ==> j < items@.len() && bad_item(items.deep_view(), k) == Some(
            items.deep_view()[j as int],
        ),
        r is None ==> bad_item(items.deep_view(), k) is None,
{
    let ghost all = items.deep_view();
    let mut j: usize = 0;
    assert(all.skip(0) =~= all);
    while j < items.len()
        invariant
            all == items.deep_view(),
            j <= items@.len(),
            bad_item(all, k) == bad_item(all.skip(j as int), k),
        decreases items@.len() - j,
    {
        assert(all.skip(j as int)[0] == all[j as int]);
        assert(items[j as int].deep_view() =~= items[j as int]@);
        if !kind_ok_exec(k, items[j].as_slice()) {
            return Some(j);
        }
        assert(all.skip(j as int).drop_first() =~= all.skip(j + 1));
        j = j + 1;
    }
    assert(all.skip(j as int) =~= Seq::<Seq<char>>::empty());
    None
}

fn copy_chars(v: &Vec<char>) -> (r: Vec<char>)
    ensures
        r@ == v@,
{
    slice_chars(v.as_slice(), 0, v.len())
}

fn lit_string(s: &'static str) -> (r: String)
    ensures
        r@ == s@,
{
    String::from_str(s)
}

pub enum StepOut {
    Fail(UsageError),
    Stop,
    Go(usize),
}

fn positional_exec(
    t: &Vec<char>,
    i: usize,
    pos: &Vec<PosSpec>,
    st: &mut Scan,
    stop_mode: bool,
) -> (r: StepOut)
    requires
        i < usize::MAX,
    ensures
        final(st).slots@.len() == old(st).slots@.len(),
        match positional_step(t@, i as int, pos@, old(st)@, stop_mode) {
            Step::Fail(e) => r matches StepOut::Fail(e2) && e2@ == e && final(st)@ == old(st)@,
            Step::Stop => r is Stop && final(st)@ == old(st)@,
            Step::Go(s2, j) => r matches StepOut::Go(j2) && j2 as int == j && final(st)@ == s2,
        },
{
    if stop_mode {
        return StepOut::Stop;
    }
    if st.pos.len() < pos.len() {
        let p = pos[st.pos.len()];
        if kind_ok_exec(p.kind, t.as_slice()) {
            let ghost old_pos = st.pos.deep_view();
            let c = copy_chars(t);
            assert(c.deep_view() =~= c@);
            st.pos.push(c);
            assert(st.pos.deep_view() =~= old_pos.push(t@));
            StepOut::Go(i + 1)
        } else {
            StepOut::Fail(
                UsageError::InvalidValue(lit_string(p.name), string_from_chars(t.as_slice())),
            )
        }
    } else {
        StepOut::Fail(UsageError::ExtraPositional(string_from_chars(t.as_slice())))
    }
}

fn option_exec(
    toks: &Vec<Vec<char>>,
    i: usize,
    o: OptSpec,
    k: usize,
    name: &Vec<char>,
    inline: Option<Vec<char>>,
    st: &mut Scan,
) -> (r: StepOut)
    requires
        i < toks@.len(),
        k < old(st).slots@.len(),
        toks@.len() < usize::MAX - 2,
    ensures
        final(st).slots@.len() == old(st).slots@.len(),
        match option_step(
            toks.deep_view(),
            i as int,
            o,
            k as int,
            name@,
            inline.deep_view(),
            old(st)@,
        ) {
            Step::Fail(e) => r matches StepOut::Fail(e2) && e2@ == e,
            Step::Stop => false,
            Step::Go(s2, j) => r matches StepOut::Go(j2) && j2 as int == j && final(st)@ == s2,
        },
{
    let ghost tv = toks.deep_view();
    let ghost old_slots = st.slots.deep_view();
    proof {
        assert(old(st)@.slots == old_slots);
    }
    match o.arity {
        Arity::Flag => {
            if inline.is_some() {
                return StepOut::Fail(UsageError::UnexpectedValue(string_from_chars(name.as_slice())));
            }
            if st.slots[k].is_some() {
                return StepOut::Fail(UsageError::Duplicate(string_from_chars(name.as_slice())));
            }
            let empty: Vec<Vec<char>> = Vec::new();
            assert(empty.deep_view() =~= Seq::<Seq<char>>::empty());
            st.slots.set(k, Some(empty));
            assert(st.slots.deep_view() =~= old_slots.update(
                k as int,
                Some(Seq::<Seq<char>>::empty()),
            ));
            StepOut::Go(i + 1)
        },
        Arity::One | Arity::Many => {
            let (value, next): (Option<Vec<char>>, usize) = match inline {
                Some(v) => (Some(v), i + 1),
                None => {
                    if i + 1 < toks.len() && !(toks[i + 1].len() > 1 && toks[i + 1][0] == '-') {
                        assert(tv[i + 1] == toks@[i + 1]@);
                        (Some(copy_chars(&toks[i + 1])), i + 2)
                    } else {
                        proof {
                            if i + 1 < toks@.len() {
                                assert(tv[i + 1] == toks@[i + 1]@);
                            }
                        }
                        (None, i + 1)
                    }
                },
            };
            assert(take_value(tv, i as int, inline.deep_view()) == (value.deep_view(), next as int));
            match value {
                None => StepOut::Fail(UsageError::MissingValue(string_from_chars(name.as_slice()))),
                Some(v) => {
                    assert(v.deep_view() =~= v@);
                    match o.arity {
                        Arity::One => {
                            if st.slots[k].is_some() {
                                return StepOut::Fail(
                                    UsageError::Duplicate(string_from_chars(name.as_slice())),
                                );
                            }
                            if !kind_ok_exec(o.kind, v.as_slice()) {
                                return StepOut::Fail(
                                    UsageError::InvalidValue(
                                        string_from_chars(name.as_slice()),
                                        string_from_chars(v.as_slice()),
                                    ),
                                );
                            }
                            let ghost vv = v@;
                            let mut one: Vec<Vec<char>> = Vec::new();
                            one.push(v);
                            assert(one.deep_view() =~= seq![vv]);
                            st.slots.set(k, Some(one));
                            assert(st.slots.deep_view() =~= old_slots.update(k as int, Some(seq![vv])));
                            StepOut::Go(next)
                        },
                        _ => {
                            let items = split_commas_exec(v.as_slice());
                            match bad_item_exec(&items, o.kind) {
                                Some(b) => {
                                    assert(items[b as int].deep_view() =~= items[b as int]@);
                                    StepOut::Fail(
                                        UsageError::InvalidValue(
                                            string_from_chars(name.as_slice()),
                                            string_from_chars(items[b].as_slice()),
                                        ),
                                    )
                                },
                                None => {
                                    let ghost iv = items.deep_view();
                                    let mut acc: Vec<Vec<char>> = match st.slots[k].clone() {
                                        Some(p) => p,
                                        None => Vec::new(),
                                    };
                                    let ghost prev = acc.deep_view();
                                    assert(prev == match old_slots[k as int] {
                                        Some(p) => p,
                                        None => Seq::<Seq<char>>::empty(),
                                    });
                                    let mut m: usize = 0;
                                    while m < items.len()
                                        invariant
                                            iv == items.deep_view(),
                                            m <= items@.len(),
                                            acc.deep_view() == prev + iv.take(m as int),
                                        decreases items@.len() - m,
                                    {
                                        let ghost before = acc.deep_view();
                                        let item = copy_chars(&items[m]);
                                        assert(item.deep_view() =~= iv[m as int]);
                                        acc.push(item);
                                        assert(acc.deep_view() =~= before.push(iv[m as int]));
                                        assert(prev + iv.take(m + 1) =~= (prev + iv.take(
                                            m as int,
                                        )).push(iv[m as int]));
                                        m = m + 1;
                                    }
                                    assert(iv.take(items@.len() as int) =~= iv);
                                    st.slots.set(k, Some(acc));
                                    assert(st.slots.deep_view() =~= old_slots.update(
                                        k as int,
                                        Some(prev + iv),
                                    ));
                                    StepOut::Go(next)
                                },
                            }
                        },
                    }
                },
            }
        },
    }
}

/// Performs the effect of the token at `i` (see `step`).
fn step_exec(
    toks: &Vec<Vec<char>>,
    i: usize,
    table: &Vec<OptSpec>,
    pos: &Vec<PosSpec>,
    st: &mut Scan,
    stop_mode: bool,
    allow_version: bool,
) -> (r: StepOut)
    requires
        i < toks@.len(),
        toks@.len() < usize::MAX - 2,
        old(st).slots@.len() == table@.len(),
    ensures
        final(st).slots@.len() == old(st).slots@.len(),
        match step(toks.deep_view(), i as int, table@, pos@, old(st)@, stop_mode, allow_version) {
            Step::Fail(e) => r matches StepOut::Fail(e2) && e2@ == e,
            Step::Stop => r is Stop && final(st)@ == old(st)@,
            Step::Go(s2, j) => r matches StepOut::Go(j2) && j2 as int == j && final(st)@ == s2,
        },
{
    let ghost tv = toks.deep_view();
    let t = &toks[i];
    assert(tv[i as int] == t@);
    if st.escaped {
        return positional_exec(t, i, pos, st, stop_mode);
    }
    if is_lit(t.as_slice(), "--help") || is_lit(t.as_slice(), "-h") {
        return StepOut::Fail(UsageError::Help);
    }
    if allow_version && (is_lit(t.as_slice(), "--version") || is_lit(t.as_slice(), "-V")) {
        return StepOut::Fail(UsageError::Version);
    }
    if is_lit(t.as_slice(), "--") {
        if stop_mode {
            return StepOut::Fail(UsageError::UnknownArgument(string_from_chars(t.as_slice())));
        }
        st.escaped = true;
        return StepOut::Go(i + 1);
    }
    if t.len() > 2 && t[0] == '-' && t[1] == '-' {
        let e = eq_index_exec(t.as_slice());
        proof {
            lemma_eq_from_bounds(t@, 2);
        }
        let name = slice_chars(t.as_slice(), 2, e);
        let inline: Option<Vec<char>> = if e < t.len() {
            let v = slice_chars(t.as_slice(), e + 1, t.len());
            assert(v.deep_view() =~= v@);
            Some(v)
        } else {
            None
        };
        assert(inline.deep_view() == long_inline(t@));
        match find_opt_exec(table, name.as_slice()) {
            None => {
                return StepOut::Fail(UsageError::UnknownArgument(string_from_chars(t.as_slice())));
            },
            Some(k) => {
                proof {
                    lemma_find_from_range(table@, name@, 0);
                }
                let o = table[k];
                return option_exec(toks, i, o, k, &name, inline, st);
            },
        }
    }
    if t.len() > 1 && t[0] == '-' {
        return StepOut::Fail(UsageError::UnknownArgument(string_from_chars(t.as_slice())));
    }
    positional_exec(t, i, pos, st, stop_mode)
}

/// Scans `toks[start..]` into `st` (see `scan`); returns where it stopped.
pub fn scan_exec(
    toks: &Vec<Vec<char>>,
    start: usize,
    table: &Vec<OptSpec>,
    pos: &Vec<PosSpec>,
    st: &mut Scan,
    stop_mode: bool,
    allow_version: bool,
) -> (r: Result<usize, UsageError>)
    requires
        start <= toks@.len(),
        toks@.len() < usize::MAX - 2,
        old(st).slots@.len() == table@.len(),
    ensures
        final(st).slots@.len() == old(st).slots@.len(),
        match scan(toks.deep_view(), start as int, table@, pos@, old(st)@, stop_mode, allow_version) {
            Ok((s2, j)) => r matches Ok(j2) && j2 as int == j && final(st)@ == s2,
            Err(e) => r matches Err(e2) && e2@ == e,
        },
{
    let ghost tv = toks.deep_view();
    let ghost goal = scan(tv, start as int, table@, pos@, st@, stop_mode, allow_version);
    let ghost n0 = st.slots@.len();
    let mut i: usize = start;
    while i < toks.len()
        invariant
            tv == toks.deep_view(),
            tv.len() == toks@.len(),
            toks@.len() < usize::MAX - 2,
            start <= i <= toks@.len(),
            st.slots@.len() == n0,
            n0 == table@.len(),
            n0 == old(st).slots@.len(),
            goal == scan(tv, start as int, table@, pos@, old(st)@, stop_mode, allow_version),
            scan(tv, i as int, table@, pos@, st@, stop_mode, allow_version) == goal,
        decreases toks@.len() - i,
    {
        match step_exec(toks, i, table, pos, st, stop_mode, allow_version) {
            StepOut::Fail(e) => {
                return Err(e);
            },
            StepOut::Stop => {
                return Ok(i);
            },
            StepOut::Go(j) => {
                i = j;
            },
        }
    }
    Ok(i)
}

// ---------------------------------------------------------------------------
// reading typed values out of a finished scan
// ---------------------------------------------------------------------------

/// Every value given for slot `k` (empty when the option is absent).
pub open spec fn slot_vals(st: ScanV, k: int) -> Seq<Seq<char>> {
    match st.slots[k] {
        Some(v) => v,
        None => Seq::<Seq<char>>::empty(),
    }
}

/// Whether the option of slot `k` was given.
pub open spec fn given(st: ScanV, k: int) -> bool {
    st.slots[k] is Some
}

pub open spec fn text_or(st: ScanV, k: int, d: Seq<char>) -> Seq<char> {
    if slot_vals(st, k).len() > 0 {
        slot_vals(st, k)[0]
    } else {
        d
    }
}

pub open spec fn opt_text(st: ScanV, k: int) -> Option<Seq<char>> {
    if slot_vals(st, k).len() > 0 {
        Some(slot_vals(st, k)[0])
    } else {
        None
    }
}

/// The `i64` a value reads as (values were checked when scanned).
pub open spec fn int_value(v: Seq<char>) -> int {
    match parse_int_in(v, true, -0x8000_0000_0000_0000, 0x7fff_ffff_ffff_ffff) {
        Some(x) => x,
        None => 0,
    }
}

/// The unsigned integer up to `hi` a value reads as.
pub open spec fn uint_value(v: Seq<char>, hi: int) -> int {
    match parse_int_in(v, false, 0, hi) {
        Some(x) => x,
        None => 0,
    }
}

pub open spec fn int_or(st: ScanV, k: int, d: int) -> int {
    if slot_vals(st, k).len() > 0 {
        int_value(slot_vals(st, k)[0])
    } else {
        d
    }
}

pub open spec fn opt_int(st: ScanV, k: int) -> Option<int> {
    if slot_vals(st, k).len() > 0 {
        Some(int_value(slot_vals(st, k)[0]))
    } else {
        None
    }
}

pub open spec fn opt_int_view(o: Option<i64>) -> Option<int> {
    match o {
        Some(x) => Some(x as int),
        None => None,
    }
}

pub open spec fn uint_or(st: ScanV, k: int, hi: int, d: int) -> int {
    if slot_vals(st, k).len() > 0 {
        uint_value(slot_vals(st, k)[0], hi)
    } else {
        d
    }
}

pub open spec fn ints(st: ScanV, k: int) -> Seq<int> {
    slot_vals(st, k).map_values(|v: Seq<char>| int_value(v))
}

pub open spec fn backend_value(v: Seq<char>) -> BackendChoice {
    if v == "legacy"@ {
        BackendChoice::Legacy
    } else if v == "zen"@ {
        BackendChoice::Zen
    } else {
        BackendChoice::Auto
    }
}

pub open spec fn backend_or_auto(st: ScanV, k: int) -> BackendChoice {
    if slot_vals(st, k).len() > 0 {
        backend_value(slot_vals(st, k)[0])
    } else {
        BackendChoice::Auto
    }
}

pub open spec fn pos_int(st: ScanV, p: int) -> int {
    int_value(st.pos[p])
}

proof fn lemma_slot_first(st: &Scan, k: int)
    requires
        0 <= k < st.slots@.len(),
    ensures
        st.slots@[k] matches Some(vs) ==> slot_vals(st@, k) =~= vs.deep_view(),
        st.slots@[k] is None ==> slot_vals(st@, k) =~= Seq::<Seq<char>>::empty(),
        st.slots@[k] matches Some(vs) ==> (vs@.len() > 0 ==> slot_vals(st@, k)[0] == vs@[0]@),
        st.slots@[k] matches Some(vs) ==> slot_vals(st@, k).len() == vs@.len(),
{
    if let Some(vs) = st.slots@[k] {
        if vs@.len() > 0 {
            assert(vs@[0].deep_view() =~= vs@[0]@);
        }
    }
}

/// Whether option `k` was given.
pub fn get_given(st: &Scan, k: usize) -> (r: bool)
    requires
        k < st.slots@.len(),
    ensures
        r == given(st@, k as int),
{
    st.slots[k].is_some()
}

/// The value of option `k`, or the default `d`.
pub fn get_text_or(st: &Scan, k: usize, d: &str) -> (r: String)
    requires
        k < st.slots@.len(),
    ensures
        r@ == text_or(st@, k as int, d@),
{
    proof {
        lemma_slot_first(st, k as int);
    }
    match &st.slots[k] {
        Some(vs) => if vs.len() > 0 {
            string_from_chars(vs[0].as_slice())
        } else {
            String::from_str(d)
        },
        None => String::from_str(d),
    }
}

/// The value of option `k`, if given.
pub fn get_opt_text(st: &Scan, k: usize) -> (r: Option<String>)
    requires
        k < st.slots@.len(),
    ensures
        r.deep_view() == opt_text(st@, k as int),
{
    proof {
        lemma_slot_first(st, k as int);
    }
    match &st.slots[k] {
        Some(vs) => if vs.len() > 0 {
            Some(string_from_chars(vs[0].as_slice()))
        } else {
            None
        },
        None => None,
    }
}

/// Every value given for option `k` (none when it is absent).
pub fn get_texts(st: &Scan, k: usize) -> (r: Vec<String>)
    requires
        k < st.slots@.len(),
    ensures
        r.deep_view() == slot_vals(st@, k as int),
{
    proof {
        lemma_slot_first(st, k as int);
    }
    let mut out: Vec<String> = Vec::new();
    match &st.slots[k] {
        Some(vs) => {
            let ghost want = vs.deep_view();
            let mut m: usize = 0;
            while m < vs.len()
                invariant
                    want == vs.deep_view(),
                    m <= vs@.len(),
                    out.deep_view() =~= want.take(m as int),
                decreases vs@.len() - m,
            {
                let s = string_from_chars(vs[m].as_slice());
                assert(vs@[m as int].deep_view() =~= vs@[m as int]@);
                let ghost before = out.deep_view();
                out.push(s);
                assert(out.deep_view() =~= before.push(want[m as int]));
                assert(want.take(m + 1) =~= want.take(m as int).push(want[m as int]));
                m = m + 1;
            }
            assert(want.take(vs@.len() as int) =~= want);
        },
        None => {
            assert(out.deep_view() =~= Seq::<Seq<char>>::empty());
        },
    }
    out
}

/// Every value given for option `k`, if it was given.
pub fn get_opt_texts(st: &Scan, k: usize) -> (r: Option<Vec<String>>)
    requires
        k < st.slots@.len(),
    ensures
        r.deep_view() == st@.slots[k as int],
{
    proof {
        lemma_slot_first(st, k as int);
    }
    if st.slots[k].is_some() {
        Some(get_texts(st, k))
    } else {
        None
    }
}

/// Reads a value already checked to be an `i64` (0 if it were not).
fn int_of(v: &Vec<char>) -> (r: i64)
    ensures
        r as int == int_value(v@),
{
    match parse_int_exec(v.as_slice(), true, -0x8000_0000_0000_0000, 0x7fff_ffff_ffff_ffff) {
        Some(x) => x as i64,
        None => 0,
    }
}

fn uint_of(v: &Vec<char>, hi: u64) -> (r: u64)
    ensures
        r as int == uint_value(v@, hi as int),
{
    match parse_int_exec(v.as_slice(), false, 0, hi as i128) {
        Some(x) => x as u64,
        None => 0,
    }
}

/// The integer value of option `k`, or the default `d`.
pub fn get_int_or(st: &Scan, k: usize, d: i64) -> (r: i64)
    requires
        k < st.slots@.len(),
    ensures
        r as int == int_or(st@, k as int, d as int),
{
    proof {
        lemma_slot_first(st, k as int);
    }
    match &st.slots[k] {
        Some(vs) => if vs.len() > 0 {
            int_of(&vs[0])
        } else {
            d
        },
        None => d,
    }
}

/// The integer value of option `k`, if given.
pub fn get_opt_int(st: &Scan, k: usize) -> (r: Option<i64>)
    requires
        k < st.slots@.len(),
    ensures
        opt_int_view(r) == opt_int(st@, k as int),
{
    proof {
        lemma_slot_first(st, k as int);
    }
    match &st.slots[k] {
        Some(vs) => if vs.len() > 0 {
            Some(int_of(&vs[0]))
        } else {
            None
        },
        None => None,
    }
}

/// The unsigned value (at most `hi`) of option `k`, or the default `d`.
pub fn get_uint_or(st: &Scan, k: usize, hi: u64, d: u64) -> (r: u64)
    requires
        k < st.slots@.len(),
        d <= hi,
    ensures
        r as int == uint_or(st@, k as int, hi as int, d as int),
        r <= hi,
{
    proof {
        lemma_slot_first(st, k as int);
    }
    match &st.slots[k] {
        Some(vs) => if vs.len() > 0 {
            let x = uint_of(&vs[0], hi);
            assert(x <= hi);
            x
        } else {
            d
        },
        None => d,
    }
}

/// Every value given for option `k`, as integers.
pub fn get_ints(st: &Scan, k: usize) -> (r: Vec<i64>)
    requires
        k < st.slots@.len(),
    ensures
        r@.map_values(|x: i64| x as int) == ints(st@, k as int),
{
    proof {
        lemma_slot_first(st, k as int);
    }
    let mut out: Vec<i64> = Vec::new();
    match &st.slots[k] {
        Some(vs) => {
            let ghost want = vs.deep_view().map_values(|v: Seq<char>| int_value(v));
            let mut m: usize = 0;
            while m < vs.len()
                invariant
                    want == vs.deep_view().map_values(|v: Seq<char>| int_value(v)),
                    m <= vs@.len(),
                    out@.map_values(|x: i64| x as int) =~= want.take(m as int),
                decreases vs@.len() - m,
            {
                let x = int_of(&vs[m]);
                assert(vs@[m as int].deep_view() =~= vs@[m as int]@);
                let ghost before = out@;
                out.push(x);
                assert(out@ =~= before.push(x));
                assert(want.take(m + 1) =~= want.take(m as int).push(want[m as int]));
                assert(out@.map_values(|x: i64| x as int) =~= before.map_values(|x: i64| x as int).push(
                    x as int,
                ));
                m = m + 1;
            }
            assert(want.take(vs@.len() as int) =~= want);
        },
        None => {
            assert(out@.map_values(|x: i64| x as int) =~= Seq::<int>::empty());
        },
    }
    out
}

/// The cache backend named by option `k` (`auto` when not given).
pub fn get_backend(st: &Scan, k: usize) -> (r: BackendChoice)
    requires
        k < st.slots@.len(),
    ensures
        r == backend_or_auto(st@, k as int),
{
    proof {
        lemma_slot_first(st, k as int);
    }
    match &st.slots[k] {
        Some(vs) => if vs.len() > 0 {
            if is_lit(vs[0].as_slice(), "legacy") {
                BackendChoice::Legacy
            } else if is_lit(vs[0].as_slice(), "zen") {
                BackendChoice::Zen
            } else {
                BackendChoice::Auto
            }
        } else {
            BackendChoice::Auto
        },
        None => BackendChoice::Auto,
    }
}

/// Positional argument `p`.
pub fn get_pos_text(st: &Scan, p: usize) -> (r: String)
    requires
        p < st.pos@.len(),
    ensures
        r@ == st@.pos[p as int],
{
    assert(st.pos@[p as int].deep_view() =~= st.pos@[p as int]@);
    string_from_chars(st.pos[p].as_slice())
}

/// Positional argument `p`, as an integer.
pub fn get_pos_int(st: &Scan, p: usize) -> (r: i64)
    requires
        p < st.pos@.len(),
    ensures
        r as int == pos_int(st@, p as int),
{
    assert(st.pos@[p as int].deep_view() =~= st.pos@[p as int]@);
    int_of(&st.pos[p])
}

// ---------------------------------------------------------------------------
// executable validation
// ---------------------------------------------------------------------------

fn first_conflict_exec(lv: &LeafSpec, st: &Scan, base: usize) -> (r: Option<UsageError>)
    requires
        leaf_wf(lv@),
        st.slots@.len() == base + lv.opts@.len(),
    ensures
        r matches Some(e) ==> first_conflict(lv@.conflicts, lv@.opts, st@, base as int) == Some(e@),
        r is None ==> first_conflict(lv@.conflicts, lv@.opts, st@, base as int) is None,
{
    let ghost all = lv@.conflicts;
    let mut m: usize = 0;
    assert(all.skip(0) =~= all);
    let n_slots: usize = st.slots.len();
    while m < lv.conflicts.len()
        invariant
            n_slots == st.slots@.len(),
            all == lv@.conflicts,
            leaf_wf(lv@),
            st.slots@.len() == base + lv.opts@.len(),
            m <= all.len(),
            first_conflict(all, lv@.opts, st@, base as int) == first_conflict(
                all.skip(m as int),
                lv@.opts,
                st@,
                base as int,
            ),
        decreases all.len() - m,
    {
        let (a, b) = lv.conflicts[m];
        assert(all.skip(m as int)[0] == all[m as int]);
        assert(all.skip(m as int).drop_first() =~= all.skip(m + 1));
        assert(lv@.conflicts[m as int] == (a, b));
        if st.slots[base + a].is_some() && st.slots[base + b].is_some() {
            return Some(
                UsageError::Conflict(
                    String::from_str(lv.opts[a].name),
                    String::from_str(lv.opts[b].name),
                ),
            );
        }
        m = m + 1;
    }
    None
}

fn first_unmet_exec(lv: &LeafSpec, st: &Scan, base: usize) -> (r: Option<UsageError>)
    requires
        leaf_wf(lv@),
        st.slots@.len() == base + lv.opts@.len(),
    ensures
        r matches Some(e) ==> first_unmet(lv@.requires, lv@.opts, st@, base as int) == Some(e@),
        r is None ==> first_unmet(lv@.requires, lv@.opts, st@, base as int) is None,
{
    let ghost all = lv@.requires;
    let mut m: usize = 0;
    assert(all.skip(0) =~= all);
    let n_slots: usize = st.slots.len();
    while m < lv.requires.len()
        invariant
            n_slots == st.slots@.len(),
            all == lv@.requires,
            leaf_wf(lv@),
            st.slots@.len() == base + lv.opts@.len(),
            m <= all.len(),
            first_unmet(all, lv@.opts, st@, base as int) == first_unmet(
                all.skip(m as int),
                lv@.opts,
                st@,
                base as int,
            ),
        decreases all.len() - m,
    {
        let (a, b, c) = lv.requires[m];
        assert(all.skip(m as int)[0] == all[m as int]);
        assert(all.skip(m as int).drop_first() =~= all.skip(m + 1));
        assert(lv@.requires[m as int] == (a, b, c));
        if st.slots[base + a].is_some() && st.slots[base + b].is_none() && st.slots[base
            + c].is_none() {
            return Some(UsageError::MissingRequired(String::from_str(lv.opts[b].name)));
        }
        m = m + 1;
    }
    None
}

fn first_missing_exec(lv: &LeafSpec, st: &Scan, base: usize) -> (r: Option<UsageError>)
    requires
        st.slots@.len() == base + lv.opts@.len(),
    ensures
        r matches Some(e) ==> first_missing(lv@.opts, st@, base as int, 0) == Some(e@),
        r is None ==> first_missing(lv@.opts, st@, base as int, 0) is None,
{
    let mut k: usize = 0;
    let n_slots: usize = st.slots.len();
    while k < lv.opts.len()
        invariant
            n_slots == st.slots@.len(),
            st.slots@.len() == base + lv.opts@.len(),
            k <= lv.opts@.len(),
            first_missing(lv@.opts, st@, base as int, 0) == first_missing(
                lv@.opts,
                st@,
                base as int,
                k as int,
            ),
        decreases lv.opts@.len() - k,
    {
        if lv.opts[k].required && st.slots[base + k].is_none() {
            return Some(UsageError::MissingRequired(String::from_str(lv.opts[k].name)));
        }
        k = k + 1;
    }
    None
}

/// Checks a scanned subcommand (see `validate`).
pub fn validate_exec(lv: &LeafSpec, st: &Scan, base: usize) -> (r: Option<UsageError>)
    requires
        leaf_wf(lv@),
        st.slots@.len() == base + lv.opts@.len(),
    ensures
        r matches Some(e) ==> validate(lv@, st@, base as int) == Some(e@),
        r is None ==> validate(lv@, st@, base as int) is None,
{
    if let Some(e) = first_conflict_exec(lv, st, base) {
        return Some(e);
    }
    if let Some(e) = first_unmet_exec(lv, st, base) {
        return Some(e);
    }
    if let Some(e) = first_missing_exec(lv, st, base) {
        return Some(e);
    }
    if st.pos.len() < lv.pos.len() {
        return Some(UsageError::MissingRequired(String::from_str(lv.pos[st.pos.len()].name)));
    }
    None
}

} // verus!
