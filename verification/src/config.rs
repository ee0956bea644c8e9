use vstd::prelude::*;

use crate::errors::{ConfigError, LookupError};
use crate::registry::{kind_name, lemma_kind_names_distinct, spec_kind_name, BackendKind};
use crate::strutil::str_eq;
use crate::urltext::{is_url, parse_url, url_norm};

verus! {

/// The persisted settings of one backend kind, one case per kind. The
/// endpoint is always held in canonical URL form; the optional fields are the
/// per-kind extras that the override grammar can also touch.
#[derive(Debug, PartialEq, Eq)]
pub enum BackendConfig {
    Haste { url: String },
    ModernPaste { url: String, title: Option<String> },
    Pipfi { url: String },
    Sprunge { url: String, syntax: Option<String> },
    Vpaste { url: String },
}

/// The mathematical shape of a `BackendConfig`.
pub enum CfgView {
    Haste { url: Seq<char> },
    ModernPaste { url: Seq<char>, title: Option<Seq<char>> },
    Pipfi { url: Seq<char> },
    Sprunge { url: Seq<char>, syntax: Option<Seq<char>> },
    Vpaste { url: Seq<char> },
}

impl Clone for BackendConfig {
    fn clone(&self) -> (r: Self)
        ensures
            r == *self,
    {
        match self {
            BackendConfig::Haste { url } => BackendConfig::Haste { url: url.clone() },
            BackendConfig::ModernPaste { url, title } => BackendConfig::ModernPaste {
                url: url.clone(),
                title: match title {
                    Some(t) => Some(t.clone()),
                    None => None,
                },
            },
            BackendConfig::Pipfi { url } => BackendConfig::Pipfi { url: url.clone() },
            BackendConfig::Sprunge { url, syntax } => BackendConfig::Sprunge {
                url: url.clone(),
                syntax: match syntax {
                    Some(s) => Some(s.clone()),
                    None => None,
                },
            },
            BackendConfig::Vpaste { url } => BackendConfig::Vpaste { url: url.clone() },
        }
    }
}

pub open spec fn opt_view(o: Option<String>) -> Option<Seq<char>> {
    match o {
        Some(s) => Some(s@),
        None => None,
    }
}

impl View for BackendConfig {
    type V = CfgView;

    open spec fn view(&self) -> CfgView {
        match self {
            BackendConfig::Haste { url } => CfgView::Haste { url: url@ },
            BackendConfig::ModernPaste { url, title } => CfgView::ModernPaste {
                url: url@,
                title: opt_view(*title),
            },
            BackendConfig::Pipfi { url } => CfgView::Pipfi { url: url@ },
            BackendConfig::Sprunge { url, syntax } => CfgView::Sprunge {
                url: url@,
                syntax: opt_view(*syntax),
            },
            BackendConfig::Vpaste { url } => CfgView::Vpaste { url: url@ },
        }
    }
}

pub open spec fn cfg_kind(c: CfgView) -> BackendKind {
    match c {
        CfgView::Haste { .. } => BackendKind::Haste,
        CfgView::ModernPaste { .. } => BackendKind::ModernPaste,
        CfgView::Pipfi { .. } => BackendKind::Pipfi,
        CfgView::Sprunge { .. } => BackendKind::Sprunge,
        CfgView::Vpaste { .. } => BackendKind::Vpaste,
    }
}

pub open spec fn cfg_url(c: CfgView) -> Seq<char> {
    match c {
        CfgView::Haste { url } => url,
        CfgView::ModernPaste { url, .. } => url,
        CfgView::Pipfi { url } => url,
        CfgView::Sprunge { url, .. } => url,
        CfgView::Vpaste { url } => url,
    }
}

/// The value of the kind's optional extra field, where the kind has one.
pub open spec fn cfg_extra(c: CfgView) -> Option<Seq<char>> {
    match c {
        CfgView::ModernPaste { title, .. } => title,
        CfgView::Sprunge { syntax, .. } => syntax,
        _ => None,
    }
}

/// A well-formed configuration holds its endpoint in canonical URL form.
pub open spec fn cfg_wf(c: CfgView) -> bool {
    is_url(cfg_url(c))
}

/// The name of the kind's optional extra field in the persisted block, where
/// the kind has one.
pub open spec fn spec_opt_key(k: BackendKind) -> Option<Seq<char>> {
    match k {
        BackendKind::ModernPaste => Some("title"@),
        BackendKind::Sprunge => Some("syntax"@),
        _ => None,
    }
}

pub fn opt_key(k: BackendKind) -> (r: Option<&'static str>)
    ensures
        (r is Some) == (spec_opt_key(k) is Some),
        r matches Some(s) ==> spec_opt_key(k) == Some(s@),
{
    match k {
        BackendKind::ModernPaste => Some("title"),
        BackendKind::Sprunge => Some("syntax"),
        _ => None,
    }
}

/// Which field names the kind's schema recognizes: the schema of every kind
/// is closed.
pub open spec fn allowed_key(k: BackendKind, key: Seq<char>) -> bool {
    key == "url"@ || spec_opt_key(k) == Some(key)
}

/// How often a key occurs among the fields of a block.
pub open spec fn key_count(fs: Seq<(Seq<char>, Seq<char>)>, k: Seq<char>) -> nat
    decreases fs.len(),
{
    if fs.len() == 0 {
        0
    } else {
        key_count(fs.drop_last(), k) + if fs.last().0 == k {
            1nat
        } else {
            0nat
        }
    }
}

/// The value stored under a key (the last occurrence; blocks that a schema
/// accepts carry each key at most once).
pub open spec fn lookup(fs: Seq<(Seq<char>, Seq<char>)>, k: Seq<char>) -> Option<Seq<char>>
    decreases fs.len(),
{
    if fs.len() == 0 {
        None
    } else if fs.last().0 == k {
        Some(fs.last().1)
    } else {
        lookup(fs.drop_last(), k)
    }
}

/// A block deserializes under a kind exactly when every field is recognized
/// by the kind's schema, no field repeats, the required endpoint is present,
/// and the endpoint parses as an absolute URL.
pub open spec fn block_ok(k: BackendKind, fs: Seq<(Seq<char>, Seq<char>)>) -> bool {
    &&& forall|i: int| 0 <= i < fs.len() ==> allowed_key(k, #[trigger] fs[i].0)
    &&& key_count(fs, "url"@) == 1
    &&& (spec_opt_key(k) matches Some(o) ==> key_count(fs, o) <= 1)
    &&& lookup(fs, "url"@) is Some
    &&& url_norm(lookup(fs, "url"@)->Some_0) is Some
}

pub open spec fn make_cfg(k: BackendKind, url: Seq<char>, extra: Option<Seq<char>>) -> CfgView {
    match k {
        BackendKind::Haste => CfgView::Haste { url },
        BackendKind::ModernPaste => CfgView::ModernPaste { url, title: extra },
        BackendKind::Pipfi => CfgView::Pipfi { url },
        BackendKind::Sprunge => CfgView::Sprunge { url, syntax: extra },
        BackendKind::Vpaste => CfgView::Vpaste { url },
    }
}

/// What a block that `block_ok` admits deserializes to.
pub open spec fn block_value(k: BackendKind, fs: Seq<(Seq<char>, Seq<char>)>) -> CfgView {
    let url = url_norm(lookup(fs, "url"@)->Some_0)->Some_0;
    let extra = match spec_opt_key(k) {
        Some(o) => lookup(fs, o),
        None => None,
    };
    make_cfg(k, url, extra)
}

/// The fields a configuration serializes to: the endpoint first, then the
/// kind's extra field when it is set.
pub open spec fn spec_fields_of(c: CfgView) -> Seq<(Seq<char>, Seq<char>)> {
    let base = seq![("url"@, cfg_url(c))];
    match (spec_opt_key(cfg_kind(c)), cfg_extra(c)) {
        (Some(o), Some(v)) => base.push((o, v)),
        _ => base,
    }
}

pub open spec fn pairs_view(s: Seq<(String, String)>) -> Seq<(Seq<char>, Seq<char>)> {
    Seq::new(s.len(), |i: int| (s[i].0@, s[i].1@))
}

proof fn lemma_field_take_step(fs: Seq<(Seq<char>, Seq<char>)>, k: Seq<char>, i: int)
    requires
        0 <= i < fs.len(),
    ensures
        key_count(fs.take(i + 1), k) == key_count(fs.take(i), k) + if fs[i].0 == k {
            1int
        } else {
            0int
        },
        fs[i].0 == k ==> lookup(fs.take(i + 1), k) == Some(fs[i].1),
        fs[i].0 != k ==> lookup(fs.take(i + 1), k) == lookup(fs.take(i), k),
{
    assert(fs.take(i + 1).drop_last() =~= fs.take(i));
    assert(fs.take(i + 1).last() == fs[i]);
}

proof fn lemma_key_count_from(fs: Seq<(Seq<char>, Seq<char>)>, k: Seq<char>, i: int)
    requires
        0 <= i <= fs.len(),
    ensures
        key_count(fs, k) >= key_count(fs.take(i), k),
    decreases fs.len() - i,
{
    if i == fs.len() {
        assert(fs.take(i) =~= fs);
    } else {
        lemma_field_take_step(fs, k, i);
        lemma_key_count_from(fs, k, i + 1);
    }
}

impl BackendConfig {
    pub fn kind(&self) -> (k: BackendKind)
        ensures
            k == cfg_kind(self@),
    {
        match self {
            BackendConfig::Haste { .. } => BackendKind::Haste,
            BackendConfig::ModernPaste { .. } => BackendKind::ModernPaste,
            BackendConfig::Pipfi { .. } => BackendKind::Pipfi,
            BackendConfig::Sprunge { .. } => BackendKind::Sprunge,
            BackendConfig::Vpaste { .. } => BackendKind::Vpaste,
        }
    }

    pub fn url_ref(&self) -> (r: &String)
        ensures
            r@ == cfg_url(self@),
    {
        match self {
            BackendConfig::Haste { url } => url,
            BackendConfig::ModernPaste { url, .. } => url,
            BackendConfig::Pipfi { url } => url,
            BackendConfig::Sprunge { url, .. } => url,
            BackendConfig::Vpaste { url } => url,
        }
    }

    /// The one-line human-readable summary: the kind's identifier and the
    /// essential field.
    pub open spec fn spec_summary(c: CfgView) -> Seq<char> {
        spec_kind_name(cfg_kind(c)) + " | "@ + cfg_url(c)
    }

    pub fn summary(&self) -> (r: String)
        ensures
            r@ == Self::spec_summary(self@),
    {
        let mut s = String::from_str(kind_name(self.kind()));
        s.append(" | ");
        s.append(self.url_ref().as_str());
        s
    }

    /// Serializes the configuration back to the persisted block shape: the
    /// discriminator is `kind_name(self.kind())`, the fields are these.
    pub fn to_fields(&self) -> (r: Vec<(String, String)>)
        ensures
            pairs_view(r@) == spec_fields_of(self@),
    {
        let mut out: Vec<(String, String)> = Vec::new();
        out.push((String::from_str("url"), self.url_ref().clone()));
        match self {
            BackendConfig::ModernPaste { title: Some(t), .. } => {
                out.push((String::from_str("title"), t.clone()));
            }
            BackendConfig::Sprunge { syntax: Some(sx), .. } => {
                out.push((String::from_str("syntax"), sx.clone()));
            }
            _ => {}
        }
        proof {
            assert(pairs_view(out@) =~= spec_fields_of(self@));
        }
        out
    }

    /// Deserializes one persisted block: a discriminator naming the kind plus
    /// that kind's fields. Succeeds exactly when the discriminator is
    /// registered and the block meets the kind's closed schema; a field the
    /// kind does not recognize is an error, never silently dropped.
    #[verifier::loop_isolation(false)]
    pub fn from_fields(backend: &str, fields: &Vec<(String, String)>) -> (r: Result<
        BackendConfig,
        ConfigError,
    >)
        ensures
            (forall|k: BackendKind| spec_kind_name(k) != backend@) ==> (r matches Err(
                ConfigError::UnknownBackend(b),
            ) && b@ == backend@),
            forall|k: BackendKind|
                spec_kind_name(k) == backend@ ==> {
                    let fs = pairs_view(fields@);
                    &&& ((r is Ok) <==> block_ok(k, fs))
                    &&& (r matches Ok(c) ==> c@ == block_value(k, fs) && cfg_wf(c@) && cfg_kind(
                        c@,
                    ) == k)
                    &&& (r matches Err(ConfigError::UnknownField(f)) ==> !allowed_key(k, f@)
                        && key_count(fs, f@) >= 1)
                    &&& (r matches Err(ConfigError::DuplicateField(f)) ==> key_count(fs, f@) >= 2)
                    &&& (r matches Err(ConfigError::MissingField(f)) ==> f@ == "url"@ && key_count(
                        fs,
                        "url"@,
                    ) == 0)
                    &&& (r matches Err(ConfigError::InvalidUrl(u)) ==> lookup(fs, "url"@) == Some(
                        u@,
                    ) && url_norm(u@) is None)
                },
    {
        let kd = match crate::registry::kind_from_name(backend) {
            Some(k) => k,
            None => {
                return Err(ConfigError::UnknownBackend(String::from_str(backend)));
            }
        };
        proof {
            assert(spec_kind_name(kd) == backend@);
            assert forall|k: BackendKind| spec_kind_name(k) == backend@ implies k == kd by {
                if k != kd {
                    lemma_kind_names_distinct(k, kd);
                }
            }
            reveal_strlit("url");
            reveal_strlit("title");
            reveal_strlit("syntax");
            assert("url"@.len() == 3 && "title"@.len() == 5 && "syntax"@.len() == 6);
        }
        let okey: Option<&'static str> = opt_key(kd);
        let ghost fs = pairs_view(fields@);
        let mut url_val: Option<String> = None;
        let mut extra_val: Option<String> = None;
        let mut i: usize = 0;
        while i < fields.len()
            invariant
                0 <= i <= fields.len(),
                fs == pairs_view(fields@),
                fs.len() == fields.len(),
                forall|j: int| 0 <= j < i ==> allowed_key(kd, #[trigger] fs[j].0),
                key_count(fs.take(i as int), "url"@) <= 1,
                (url_val is Some) == (key_count(fs.take(i as int), "url"@) == 1),
                (url_val matches Some(v) ==> lookup(fs.take(i as int), "url"@) == Some(v@)),
                (url_val is None ==> lookup(fs.take(i as int), "url"@) is None),
                (okey is Some) == (spec_opt_key(kd) is Some),
                (okey matches Some(o) ==> spec_opt_key(kd) == Some(o@)),
                (spec_opt_key(kd) matches Some(o) ==> {
                    &&& key_count(fs.take(i as int), o) <= 1
                    &&& ((extra_val is Some) == (key_count(fs.take(i as int), o) == 1))
                    &&& (extra_val matches Some(v) ==> lookup(fs.take(i as int), o) == Some(v@))
                    &&& (extra_val is None ==> lookup(fs.take(i as int), o) is None)
                }),
                (spec_opt_key(kd) is None ==> extra_val is None),
            decreases fields.len() - i,
        {
            let key_is_url = str_eq(fields[i].0.as_str(), "url");
            if key_is_url {
                if url_val.is_some() {
                    proof {
                        lemma_field_take_step(fs, "url"@, i as int);
                        lemma_key_count_from(fs, "url"@, i as int + 1);
                    }
                    return Err(ConfigError::DuplicateField(String::from_str("url")));
                }
                url_val = Some(fields[i].1.clone());
            } else {
                let mut handled = false;
                if let Some(o) = okey {
                    if str_eq(fields[i].0.as_str(), o) {
                        if extra_val.is_some() {
                            proof {
                                lemma_field_take_step(fs, o@, i as int);
                                lemma_key_count_from(fs, o@, i as int + 1);
                            }
                            return Err(ConfigError::DuplicateField(String::from_str(o)));
                        }
                        extra_val = Some(fields[i].1.clone());
                        handled = true;
                    }
                }
                if !handled {
                    proof {
                        lemma_field_take_step(fs, fs[i as int].0, i as int);
                        lemma_key_count_from(fs, fs[i as int].0, i as int + 1);
                        assert(!allowed_key(kd, fs[i as int].0));
                    }
                    return Err(ConfigError::UnknownField(fields[i].0.clone()));
                }
            }
            proof {
                lemma_field_take_step(fs, "url"@, i as int);
                if let Some(o) = spec_opt_key(kd) {
                    lemma_field_take_step(fs, o, i as int);
                }
            }
            i += 1;
        }
        proof {
            assert(fs.take(fields.len() as int) =~= fs);
        }
        let url_s = match url_val {
            Some(u) => u,
            None => {
                return Err(ConfigError::MissingField(String::from_str("url")));
            }
        };
        let normalized = match parse_url(url_s.as_str()) {
            Some(n) => n,
            None => {
                return Err(ConfigError::InvalidUrl(url_s));
            }
        };
        let c = match kd {
            BackendKind::Haste => BackendConfig::Haste { url: normalized },
            BackendKind::ModernPaste => BackendConfig::ModernPaste {
                url: normalized,
                title: extra_val,
            },
            BackendKind::Pipfi => BackendConfig::Pipfi { url: normalized },
            BackendKind::Sprunge => BackendConfig::Sprunge {
                url: normalized,
                syntax: extra_val,
            },
            BackendKind::Vpaste => BackendConfig::Vpaste { url: normalized },
        };
        Ok(c)
    }
}

/// Serializing a well-formed configuration and deserializing the result under
/// the same kind gives back the identical configuration: the block it emits
/// meets its kind's schema and deserializes to the same value.
pub proof fn lemma_round_trip(c: CfgView)
    requires
        cfg_wf(c),
    ensures
        block_ok(cfg_kind(c), spec_fields_of(c)),
        block_value(cfg_kind(c), spec_fields_of(c)) == c,
{
    reveal_with_fuel(key_count, 4);
    reveal_with_fuel(lookup, 4);
    reveal_strlit("url");
    reveal_strlit("title");
    reveal_strlit("syntax");
    assert("url"@.len() == 3 && "title"@.len() == 5 && "syntax"@.len() == 6);
    let k = cfg_kind(c);
    let fs = spec_fields_of(c);
    let base = seq![("url"@, cfg_url(c))];
    assert(base.drop_last() =~= Seq::<(Seq<char>, Seq<char>)>::empty());
    assert(key_count(base, "url"@) == 1);
    assert(lookup(base, "url"@) == Some(cfg_url(c)));
    match (spec_opt_key(k), cfg_extra(c)) {
        (Some(o), Some(v)) => {
            assert(fs == base.push((o, v)));
            assert(fs.drop_last() =~= base);
            assert(key_count(fs, "url"@) == 1);
            assert(key_count(fs, o) == 1);
            assert(lookup(fs, "url"@) == Some(cfg_url(c)));
            assert(lookup(fs, o) == Some(v));
            assert(forall|i: int| 0 <= i < fs.len() ==> allowed_key(k, #[trigger] fs[i].0));
        }
        _ => {
            assert(fs == base);
            if let Some(o) = spec_opt_key(k) {
                assert(key_count(fs, o) == 0);
                assert(lookup(fs, o) is None);
            }
            assert(forall|i: int| 0 <= i < fs.len() ==> allowed_key(k, #[trigger] fs[i].0));
        }
    }
    assert(url_norm(cfg_url(c)) == Some(cfg_url(c)));
    assert(block_value(k, fs) == c);
}

/// A block that carries any field its kind does not recognize fails the
/// kind's schema, whatever else it holds.
pub proof fn lemma_unknown_field_rejected(
    k: BackendKind,
    fs: Seq<(Seq<char>, Seq<char>)>,
    i: int,
)
    requires
        0 <= i < fs.len(),
        !allowed_key(k, fs[i].0),
    ensures
        !block_ok(k, fs),
{
    assert(!allowed_key(k, fs[i].0));
}

/// The whole resolved configuration: the default server name, the history
/// file path, and the named server blocks in their persisted order.
#[derive(Debug, Clone, PartialEq, Eq)]
pub struct Config {
    pub server: Option<String>,
    pub histfile: Option<String>,
    pub servers: Vec<(String, BackendConfig)>,
}

impl Config {
    pub open spec fn wf(self) -> bool {
        forall|i: int| 0 <= i < self.servers@.len() ==> cfg_wf(#[trigger] self.servers@[i].1@)
    }

    pub fn empty() -> (r: Config)
        ensures
            r.server is None,
            r.histfile is None,
            r.servers@.len() == 0,
            r.wf(),
    {
        Config { server: None, histfile: None, servers: Vec::new() }
    }

    /// Replaces the default server choice when the invocation names one.
    pub fn with_server_override(self, server: Option<String>) -> (r: Config)
        ensures
            r.servers == self.servers,
            r.histfile == self.histfile,
            r.server == (if server is Some {
                server
            } else {
                self.server
            }),
    {
        match server {
            Some(s) => Config { server: Some(s), histfile: self.histfile, servers: self.servers },
            None => self,
        }
    }

    /// Replaces the history file path when the invocation names one; the
    /// reserved literal `NONE` disables history instead of naming a file.
    pub fn with_histfile_override(self, histfile: Option<String>) -> (r: Config)
        ensures
            r.servers == self.servers,
            r.server == self.server,
            histfile is None ==> r.histfile == self.histfile,
            (histfile matches Some(h) && h@ == "NONE"@) ==> r.histfile is None,
            (histfile matches Some(h) && h@ != "NONE"@) ==> r.histfile == histfile,
    {
        match histfile {
            Some(h) => {
                if str_eq(h.as_str(), "NONE") {
                    Config { server: self.server, histfile: None, servers: self.servers }
                } else {
                    Config { server: self.server, histfile: Some(h), servers: self.servers }
                }
            }
            None => self,
        }
    }

    /// Picks the server block this invocation submits through: the default
    /// server when one is set, otherwise the first block; fails when no block
    /// is defined, or when the chosen name has none.
    #[verifier::loop_isolation(false)]
    pub fn choose_server(&self) -> (r: Result<(String, BackendConfig), LookupError>)
        ensures
            self.servers@.len() == 0 <==> (r matches Err(LookupError::NoServers)),
            r matches Ok(p) ==> {
                &&& p.0@ == (match self.server {
                    Some(s) => s@,
                    None => self.servers@[0].0@,
                })
                &&& exists|i: int|
                    0 <= i < self.servers@.len() && (#[trigger] self.servers@[i]).0@ == p.0@
                        && p.1 == self.servers@[i].1 && (forall|j: int|
                        0 <= j < i ==> (#[trigger] self.servers@[j]).0@ != p.0@)
            },
            r matches Err(LookupError::UnknownServer(s)) ==> {
                &&& s@ == (match self.server {
                    Some(s0) => s0@,
                    None => self.servers@[0].0@,
                })
                &&& forall|i: int|
                    0 <= i < self.servers@.len() ==> (#[trigger] self.servers@[i]).0@ != s@
            },
            self.servers@.len() > 0 && self.server is None ==> r is Ok,
    {
        if self.servers.len() == 0 {
            return Err(LookupError::NoServers);
        }
        let choice: String = match &self.server {
            Some(s) => s.clone(),
            None => self.servers[0].0.clone(),
        };
        proof {
            assert(choice@ == (match self.server {
                Some(s0) => s0@,
                None => self.servers@[0].0@,
            }));
        }
        let mut i: usize = 0;
        while i < self.servers.len()
            invariant
                0 <= i <= self.servers@.len(),
                forall|j: int| 0 <= j < i ==> (#[trigger] self.servers@[j]).0@ != choice@,
            decreases self.servers@.len() - i,
        {
            if str_eq(self.servers[i].0.as_str(), choice.as_str()) {
                proof {
                    assert((self.servers@[i as int]).0@ == choice@);
                }
                return Ok((choice, self.servers[i].1.clone()));
            }
            i += 1;
        }
        Err(LookupError::UnknownServer(choice))
    }
}

} // verus!
