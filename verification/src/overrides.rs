use vstd::prelude::*;

use crate::config::{
    cfg_extra, cfg_kind, cfg_url, cfg_wf, make_cfg, opt_view, BackendConfig, CfgView,
};
use crate::errors::{ArgErrView, ArgError};
use crate::registry::BackendKind;
use crate::strutil::str_eq;
use crate::urltext::{is_url, parse_url, url_norm};

verus! {

/// Which field of the variant a flag targets: the endpoint, or the kind's
/// optional extra field.
#[derive(Clone, Copy, PartialEq, Eq, Structural, Debug)]
pub enum TargetField {
    Url,
    Extra,
}

/// One entry of a kind's flag table: the flag's two spellings, the field it
/// replaces, and whether the reserved literal `NONE` clears that field.
#[derive(Clone, Copy, Debug)]
pub struct FlagRule {
    pub short: &'static str,
    pub long: &'static str,
    pub target: TargetField,
    pub sentinel: bool,
}

/// The mathematical shape of a `FlagRule`.
pub struct RuleView {
    pub short: Seq<char>,
    pub long: Seq<char>,
    pub target: TargetField,
    pub sentinel: bool,
}

impl View for FlagRule {
    type V = RuleView;

    open spec fn view(&self) -> RuleView {
        RuleView { short: self.short@, long: self.long@, target: self.target, sentinel: self.sentinel }
    }
}

pub open spec fn rules_view(s: Seq<FlagRule>) -> Seq<RuleView> {
    Seq::new(s.len(), |i: int| s[i]@)
}

pub open spec fn strings_view(s: Seq<String>) -> Seq<Seq<char>> {
    Seq::new(s.len(), |i: int| s[i]@)
}

pub open spec fn url_rule() -> RuleView {
    RuleView { short: "-u"@, long: "--url"@, target: TargetField::Url, sentinel: false }
}

pub open spec fn title_rule() -> RuleView {
    RuleView { short: "-t"@, long: "--title"@, target: TargetField::Extra, sentinel: true }
}

pub open spec fn syntax_rule() -> RuleView {
    RuleView { short: "-s"@, long: "--syntax"@, target: TargetField::Extra, sentinel: true }
}

/// The fixed flag table of each kind, one entry per overridable field.
pub open spec fn spec_rules(k: BackendKind) -> Seq<RuleView> {
    match k {
        BackendKind::Haste => seq![url_rule()],
        BackendKind::ModernPaste => seq![title_rule()],
        BackendKind::Pipfi => seq![url_rule()],
        BackendKind::Sprunge => seq![url_rule(), syntax_rule()],
        BackendKind::Vpaste => seq![url_rule()],
    }
}

pub fn rules_for(k: BackendKind) -> (r: Vec<FlagRule>)
    ensures
        rules_view(r@) == spec_rules(k),
{
    let mut v: Vec<FlagRule> = Vec::new();
    match k {
        BackendKind::ModernPaste => {
            v.push(
                FlagRule { short: "-t", long: "--title", target: TargetField::Extra, sentinel: true },
            );
        }
        BackendKind::Sprunge => {
            v.push(
                FlagRule { short: "-u", long: "--url", target: TargetField::Url, sentinel: false },
            );
            v.push(
                FlagRule {
                    short: "-s",
                    long: "--syntax",
                    target: TargetField::Extra,
                    sentinel: true,
                },
            );
        }
        _ => {
            v.push(
                FlagRule { short: "-u", long: "--url", target: TargetField::Url, sentinel: false },
            );
        }
    }
    proof {
        assert(rules_view(v@) =~= spec_rules(k));
    }
    v
}

pub open spec fn rule_matches(rl: RuleView, arg: Seq<char>) -> bool {
    arg == rl.short || arg == rl.long
}

/// The first table entry, from `i` on, whose short or long spelling is `arg`.
pub open spec fn find_rule(rs: Seq<RuleView>, arg: Seq<char>, i: int) -> Option<RuleView>
    decreases rs.len() - i,
{
    if i < 0 || i >= rs.len() {
        None
    } else if rule_matches(rs[i], arg) {
        Some(rs[i])
    } else {
        find_rule(rs, arg, i + 1)
    }
}

#[verifier::loop_isolation(false)]
fn lookup_rule(rules: &Vec<FlagRule>, arg: &str) -> (r: Option<FlagRule>)
    ensures
        (match r {
            Some(rl) => find_rule(rules_view(rules@), arg@, 0) == Some(rl@),
            None => find_rule(rules_view(rules@), arg@, 0) is None,
        }),
{
    let mut i: usize = 0;
    while i < rules.len()
        invariant
            0 <= i <= rules@.len(),
            find_rule(rules_view(rules@), arg@, 0) == find_rule(rules_view(rules@), arg@, i as int),
        decreases rules@.len() - i,
    {
        if str_eq(arg, rules[i].short) || str_eq(arg, rules[i].long) {
            return Some(rules[i]);
        }
        i += 1;
    }
    None
}

/// What parsing one invocation's arguments gives: a sequence of field
/// replacements, a help request, or a flag-parse failure.
pub enum ParseOut {
    Ops(Seq<(TargetField, Option<Seq<char>>)>),
    Help,
    Fail(ArgErrView),
}

/// The override grammar, one generic rule driven by the kind's flag table.
/// Arguments are read from `i` on (the first argument is the invocation
/// name): `-h`/`--help` is a help request; a flag in the table takes the next
/// argument as its value; an endpoint value must parse as a URL and is
/// canonicalized; the reserved literal `NONE` on a sentinel flag clears the
/// field; anything else is a failure.
pub open spec fn spec_parse(rs: Seq<RuleView>, args: Seq<Seq<char>>, i: int) -> ParseOut
    decreases args.len() - i,
{
    if i < 0 || i >= args.len() {
        ParseOut::Ops(Seq::empty())
    } else if args[i] == "-h"@ || args[i] == "--help"@ {
        ParseOut::Help
    } else {
        match find_rule(rs, args[i], 0) {
            None => ParseOut::Fail(ArgErrView::UnknownFlag(args[i])),
            Some(rl) => {
                if i + 1 >= args.len() {
                    ParseOut::Fail(ArgErrView::MissingValue(args[i]))
                } else {
                    let v = args[i + 1];
                    if rl.target == TargetField::Url {
                        match url_norm(v) {
                            None => ParseOut::Fail(ArgErrView::InvalidUrl(v)),
                            Some(n) => prepend_ops(
                                seq![(TargetField::Url, Some(n))],
                                spec_parse(rs, args, i + 2),
                            ),
                        }
                    } else {
                        let op: (TargetField, Option<Seq<char>>) = if rl.sentinel && v == "NONE"@ {
                            (TargetField::Extra, None)
                        } else {
                            (TargetField::Extra, Some(v))
                        };
                        prepend_ops(seq![op], spec_parse(rs, args, i + 2))
                    }
                }
            }
        }
    }
}

pub open spec fn prepend_ops(ops: Seq<(TargetField, Option<Seq<char>>)>, o: ParseOut) -> ParseOut {
    match o {
        ParseOut::Ops(rest) => ParseOut::Ops(ops + rest),
        _ => o,
    }
}

/// One field replacement: an endpoint op carries the new canonical URL; an
/// extra op carries the new value, or `None` to clear the field.
pub open spec fn apply_op(c: CfgView, op: (TargetField, Option<Seq<char>>)) -> CfgView {
    match op.0 {
        TargetField::Url => make_cfg(cfg_kind(c), op.1->Some_0, cfg_extra(c)),
        TargetField::Extra => make_cfg(cfg_kind(c), cfg_url(c), op.1),
    }
}

pub open spec fn apply_ops(c: CfgView, ops: Seq<(TargetField, Option<Seq<char>>)>) -> CfgView
    decreases ops.len(),
{
    if ops.len() == 0 {
        c
    } else {
        apply_ops(apply_op(c, ops[0]), ops.skip(1))
    }
}

proof fn lemma_prepend_step(
    ops0: Seq<(TargetField, Option<Seq<char>>)>,
    op: (TargetField, Option<Seq<char>>),
    o: ParseOut,
)
    ensures
        prepend_ops(ops0, prepend_ops(seq![op], o)) == prepend_ops(ops0.push(op), o),
{
    match o {
        ParseOut::Ops(rest) => {
            assert(ops0 + (seq![op] + rest) =~= ops0.push(op) + rest);
        }
        _ => {}
    }
}

pub open spec fn ops_view(s: Seq<(TargetField, Option<String>)>) -> Seq<
    (TargetField, Option<Seq<char>>),
> {
    Seq::new(s.len(), |i: int| (s[i].0, opt_view(s[i].1)))
}

/// The distinguished non-error outcome of `apply_args`: the overrides were
/// merged, or the invocation asked for help and nothing was merged.
#[derive(Clone, Copy, PartialEq, Eq, Structural, Debug)]
pub enum ApplyOutcome {
    Applied,
    Help,
}

impl BackendConfig {
    fn set_url(&mut self, u: String)
        ensures
            final(self)@ == make_cfg(cfg_kind(old(self)@), u@, cfg_extra(old(self)@)),
    {
        match self {
            BackendConfig::Haste { url } => {
                *url = u;
            }
            BackendConfig::ModernPaste { url, .. } => {
                *url = u;
            }
            BackendConfig::Pipfi { url } => {
                *url = u;
            }
            BackendConfig::Sprunge { url, .. } => {
                *url = u;
            }
            BackendConfig::Vpaste { url } => {
                *url = u;
            }
        }
    }

    fn set_extra(&mut self, v: Option<String>)
        ensures
            final(self)@ == make_cfg(cfg_kind(old(self)@), cfg_url(old(self)@), opt_view(v)),
    {
        match self {
            BackendConfig::ModernPaste { title, .. } => {
                *title = v;
            }
            BackendConfig::Sprunge { syntax, .. } => {
                *syntax = v;
            }
            _ => {}
        }
    }

    /// Parses the invocation's arguments under this kind's flag table and
    /// merges the overrides into the variant, exactly as `spec_parse` and
    /// `apply_ops` describe: on a parse failure or a help request every field
    /// is left unchanged.
    #[verifier::loop_isolation(false)]
    pub fn apply_args(&mut self, args: &Vec<String>) -> (r: Result<ApplyOutcome, ArgError>)
        ensures
            (match spec_parse(spec_rules(cfg_kind(old(self)@)), strings_view(args@), 1) {
                ParseOut::Ops(ops) => r == Ok::<ApplyOutcome, ArgError>(ApplyOutcome::Applied)
                    && final(self)@ == apply_ops(old(self)@, ops),
                ParseOut::Help => r == Ok::<ApplyOutcome, ArgError>(ApplyOutcome::Help)
                    && final(self)@ == old(self)@,
                ParseOut::Fail(e) => (r matches Err(e2) && e2@ == e)
                    && final(self)@ == old(self)@,
            }),
            cfg_kind(final(self)@) == cfg_kind(old(self)@),
            cfg_wf(old(self)@) ==> cfg_wf(final(self)@),
    {
        let ghost rv = spec_rules(cfg_kind(self@));
        let ghost av = strings_view(args@);
        let rules = rules_for(self.kind());
        let mut ops: Vec<(TargetField, Option<String>)> = Vec::new();
        let mut i: usize = 1;
        proof {
            match spec_parse(rv, av, 1) {
                ParseOut::Ops(rest) => {
                    assert(Seq::<(TargetField, Option<Seq<char>>)>::empty() + rest =~= rest);
                }
                _ => {}
            }
        }
        while i < args.len()
            invariant
                1 <= i,
                spec_parse(rv, av, 1) == prepend_ops(ops_view(ops@), spec_parse(rv, av, i as int)),
                forall|t: int|
                    0 <= t < ops@.len() ==> ((#[trigger] ops@[t]).0 == TargetField::Url ==> (
                    opt_view(ops@[t].1) matches Some(u) && is_url(u))),
            decreases args@.len() - i,
        {
            if str_eq(args[i].as_str(), "-h") || str_eq(args[i].as_str(), "--help") {
                return Ok(ApplyOutcome::Help);
            }
            let rl = match lookup_rule(&rules, args[i].as_str()) {
                Some(rl) => rl,
                None => {
                    return Err(ArgError::UnknownFlag(args[i].clone()));
                }
            };
            if i + 1 >= args.len() {
                return Err(ArgError::MissingValue(args[i].clone()));
            }
            let ghost ops0 = ops_view(ops@);
            match rl.target {
                TargetField::Url => {
                    let n = match parse_url(args[i + 1].as_str()) {
                        Some(n) => n,
                        None => {
                            return Err(ArgError::InvalidUrl(args[i + 1].clone()));
                        }
                    };
                    ops.push((TargetField::Url, Some(n)));
                    proof {
                        let op = (TargetField::Url, Some(n@));
                        assert(ops_view(ops@) =~= ops0.push(op));
                        lemma_prepend_step(ops0, op, spec_parse(rv, av, i as int + 2));
                    }
                }
                TargetField::Extra => {
                    let clears = rl.sentinel && str_eq(args[i + 1].as_str(), "NONE");
                    let op_val: Option<String> = if clears {
                        None
                    } else {
                        Some(args[i + 1].clone())
                    };
                    ops.push((TargetField::Extra, op_val));
                    proof {
                        let op = (TargetField::Extra, opt_view(ops@.last().1));
                        assert(ops_view(ops@) =~= ops0.push(op));
                        lemma_prepend_step(ops0, op, spec_parse(rv, av, i as int + 2));
                    }
                }
            }
            i += 2;
        }
        proof {
            assert(spec_parse(rv, av, i as int) == ParseOut::Ops(
                Seq::<(TargetField, Option<Seq<char>>)>::empty(),
            ));
            assert(ops_view(ops@) + Seq::<(TargetField, Option<Seq<char>>)>::empty() =~= ops_view(
                ops@,
            ));
        }
        let ghost full = ops_view(ops@);
        let ghost start = self@;
        proof {
            assert(full.skip(0) =~= full);
        }
        let mut j: usize = 0;
        while j < ops.len()
            invariant
                0 <= j <= ops@.len(),
                full == ops_view(ops@),
                apply_ops(start, full) == apply_ops(self@, full.skip(j as int)),
                cfg_kind(self@) == cfg_kind(start),
                cfg_wf(start) ==> cfg_wf(self@),
            decreases ops@.len() - j,
        {
            proof {
                assert(full.skip(j as int)[0] == full[j as int]);
                assert(full.skip(j as int).skip(1) =~= full.skip(j as int + 1));
            }
            let t = ops[j].0;
            let v: Option<String> = match &ops[j].1 {
                Some(s) => Some(s.clone()),
                None => None,
            };
            match t {
                TargetField::Url => {
                    match v {
                        Some(u) => {
                            self.set_url(u);
                        }
                        None => {
                            proof {
                                assert(false);
                            }
                        }
                    }
                }
                TargetField::Extra => {
                    self.set_extra(v);
                }
            }
            j += 1;
        }
        proof {
            assert(full.skip(ops@.len() as int) =~= Seq::<(TargetField, Option<Seq<char>>)>::empty());
        }
        Ok(ApplyOutcome::Applied)
    }
}

pub const HASTE_HELP: &'static str = r#"haste backend

USAGE:
    <server> [OPTIONS]

OPTIONS:
    -u, --url <url>    Overrides url set in config
    -h, --help         Prints help information
"#;

pub const MODERN_PASTE_HELP: &'static str = r#"modern_paste backend

USAGE:
    <server> [OPTIONS]

OPTIONS:
    -t, --title <title|NONE>    Title for the paste
    -h, --help                  Prints help information
"#;

pub const PIPFI_HELP: &'static str = r#"pipfi backend

USAGE:
    <server> [OPTIONS]

OPTIONS:
    -u, --url <url>    Overrides url set in config
    -h, --help         Prints help information
"#;

pub const SPRUNGE_HELP: &'static str = r#"sprunge backend

USAGE:
    <server> [OPTIONS]

OPTIONS:
    -u, --url <url>                 Overrides url set in config
    -s, --syntax <filetype|NONE>    Filetype for syntax highlighting
    -h, --help                      Prints help information
"#;

pub const VPASTE_HELP: &'static str = r#"vpaste backend

USAGE:
    <server> [OPTIONS]

OPTIONS:
    -u, --url <url>    Overrides url set in config
    -h, --help         Prints help information
"#;

/// The grammar's own help rendering for a kind, printed after the current
/// configuration block when an invocation asks for help.
pub open spec fn spec_help_text(k: BackendKind) -> Seq<char> {
    match k {
        BackendKind::Haste => HASTE_HELP@,
        BackendKind::ModernPaste => MODERN_PASTE_HELP@,
        BackendKind::Pipfi => PIPFI_HELP@,
        BackendKind::Sprunge => SPRUNGE_HELP@,
        BackendKind::Vpaste => VPASTE_HELP@,
    }
}

pub fn help_text(k: BackendKind) -> (r: &'static str)
    ensures
        r@ == spec_help_text(k),
{
    match k {
        BackendKind::Haste => HASTE_HELP,
        BackendKind::ModernPaste => MODERN_PASTE_HELP,
        BackendKind::Pipfi => PIPFI_HELP,
        BackendKind::Sprunge => SPRUNGE_HELP,
        BackendKind::Vpaste => VPASTE_HELP,
    }
}

/// An invocation that carries no flag at all leaves every field of the
/// variant unchanged.
pub proof fn lemma_no_overrides_no_change(c: CfgView, args: Seq<Seq<char>>)
    requires
        args.len() <= 1,
    ensures
        spec_parse(spec_rules(cfg_kind(c)), args, 1) == ParseOut::Ops(
            Seq::<(TargetField, Option<Seq<char>>)>::empty(),
        ),
        apply_ops(c, Seq::empty()) == c,
{
    let rs = spec_rules(cfg_kind(c));
    assert(spec_parse(rs, args, 1) == ParseOut::Ops(
        Seq::<(TargetField, Option<Seq<char>>)>::empty(),
    ));
    assert(apply_ops(c, Seq::empty()) == c);
}

/// Supplying the reserved literal `NONE` through any flag that supports the
/// clear-sentinel parses to an explicit clear of its field — the literal is
/// never stored — and merging that clear leaves the field unset.
pub proof fn lemma_sentinel_clears(c: CfgView, name: Seq<char>, i: int)
    requires
        0 <= i < spec_rules(cfg_kind(c)).len(),
        spec_rules(cfg_kind(c))[i].sentinel,
    ensures
        ({
            let rl = spec_rules(cfg_kind(c))[i];
            let args = seq![name, rl.long, "NONE"@];
            &&& spec_parse(spec_rules(cfg_kind(c)), args, 1) == ParseOut::Ops(
                seq![(rl.target, Option::<Seq<char>>::None)],
            )
            &&& cfg_extra(apply_ops(c, seq![(rl.target, Option::<Seq<char>>::None)]))
                is None
        }),
{
    reveal_with_fuel(find_rule, 3);
    reveal_with_fuel(spec_parse, 3);
    reveal_with_fuel(apply_ops, 3);
    reveal_strlit("-u");
    reveal_strlit("--url");
    reveal_strlit("-t");
    reveal_strlit("--title");
    reveal_strlit("-s");
    reveal_strlit("--syntax");
    reveal_strlit("-h");
    reveal_strlit("--help");
    reveal_strlit("NONE");
    assert("-u"@.len() == 2 && "--url"@.len() == 5 && "-t"@.len() == 2 && "--title"@.len() == 7
        && "-s"@.len() == 2 && "--syntax"@.len() == 8 && "-h"@.len() == 2 && "--help"@.len() == 6
        && "NONE"@.len() == 4);
    assert("--url"@[1] == '-' && "-u"@[1] == 'u');
    let k = cfg_kind(c);
    let rs = spec_rules(k);
    let rl = rs[i];
    let args = seq![name, rl.long, "NONE"@];
    match k {
        BackendKind::ModernPaste => {
            assert(rs[0] == title_rule());
            assert(rl == title_rule());
            assert(args[1] == "--title"@);
            assert(find_rule(rs, args[1], 0) == Some(rl));
            assert(spec_parse(rs, args, 3) == ParseOut::Ops(
                Seq::<(TargetField, Option<Seq<char>>)>::empty(),
            ));
            assert(seq![(rl.target, Option::<Seq<char>>::None)] + Seq::<(
                TargetField,
                Option<Seq<char>>,
            )>::empty() =~= seq![(rl.target, Option::<Seq<char>>::None)]);
            assert(seq![(rl.target, Option::<Seq<char>>::None)].skip(1) =~= Seq::<(
                TargetField,
                Option<Seq<char>>,
            )>::empty());
        }
        BackendKind::Sprunge => {
            assert(rs[0] == url_rule() && rs[1] == syntax_rule());
            assert(i == 1);
            assert(rl == syntax_rule());
            assert(args[1] == "--syntax"@);
            assert(!rule_matches(rs[0], args[1]));
            assert(find_rule(rs, args[1], 0) == Some(rl));
            assert(spec_parse(rs, args, 3) == ParseOut::Ops(
                Seq::<(TargetField, Option<Seq<char>>)>::empty(),
            ));
            assert(seq![(rl.target, Option::<Seq<char>>::None)] + Seq::<(
                TargetField,
                Option<Seq<char>>,
            )>::empty() =~= seq![(rl.target, Option::<Seq<char>>::None)]);
            assert(seq![(rl.target, Option::<Seq<char>>::None)].skip(1) =~= Seq::<(
                TargetField,
                Option<Seq<char>>,
            )>::empty());
        }
        _ => {
            assert(rs[0] == url_rule());
            assert(!rs[i].sentinel);
        }
    }
}

} // verus!
