use vstd::prelude::*;

use crate::strutil::str_eq;

verus! {

/// The closed set of supported backend kinds, one per remote paste service
/// family.
#[derive(Clone, Copy, PartialEq, Eq, Structural, Debug)]
pub enum BackendKind {
    Haste,
    ModernPaste,
    Pipfi,
    Sprunge,
    Vpaste,
}

/// The identifier under which a kind is registered, as it appears in the
/// configuration file's discriminator field and on the command line.
pub open spec fn spec_kind_name(k: BackendKind) -> Seq<char> {
    match k {
        BackendKind::Haste => "haste"@,
        BackendKind::ModernPaste => "modern_paste"@,
        BackendKind::Pipfi => "pipfi"@,
        BackendKind::Sprunge => "sprunge"@,
        BackendKind::Vpaste => "vpaste"@,
    }
}

pub fn kind_name(k: BackendKind) -> (r: &'static str)
    ensures
        r@ == spec_kind_name(k),
{
    match k {
        BackendKind::Haste => "haste",
        BackendKind::ModernPaste => "modern_paste",
        BackendKind::Pipfi => "pipfi",
        BackendKind::Sprunge => "sprunge",
        BackendKind::Vpaste => "vpaste",
    }
}

/// No two kinds are registered under the same identifier.
pub proof fn lemma_kind_names_distinct(k1: BackendKind, k2: BackendKind)
    requires
        k1 != k2,
    ensures
        spec_kind_name(k1) != spec_kind_name(k2),
{
    reveal_strlit("haste");
    reveal_strlit("modern_paste");
    reveal_strlit("pipfi");
    reveal_strlit("sprunge");
    reveal_strlit("vpaste");
    assert("haste"@.len() == 5 && "modern_paste"@.len() == 12 && "pipfi"@.len() == 5
        && "sprunge"@.len() == 7 && "vpaste"@.len() == 6);
    assert("haste"@[0] == 'h' && "pipfi"@[0] == 'p');
}

/// Resolves a registered identifier to its kind; `None` exactly when the name
/// is not registered.
pub fn kind_from_name(name: &str) -> (r: Option<BackendKind>)
    ensures
        r matches Some(k) ==> spec_kind_name(k) == name@,
        r is None <==> (forall|k: BackendKind| spec_kind_name(k) != name@),
{
    if str_eq(name, "haste") {
        proof {
            assert(spec_kind_name(BackendKind::Haste) == name@);
        }
        Some(BackendKind::Haste)
    } else if str_eq(name, "modern_paste") {
        proof {
            assert(spec_kind_name(BackendKind::ModernPaste) == name@);
        }
        Some(BackendKind::ModernPaste)
    } else if str_eq(name, "pipfi") {
        proof {
            assert(spec_kind_name(BackendKind::Pipfi) == name@);
        }
        Some(BackendKind::Pipfi)
    } else if str_eq(name, "sprunge") {
        proof {
            assert(spec_kind_name(BackendKind::Sprunge) == name@);
        }
        Some(BackendKind::Sprunge)
    } else if str_eq(name, "vpaste") {
        proof {
            assert(spec_kind_name(BackendKind::Vpaste) == name@);
        }
        Some(BackendKind::Vpaste)
    } else {
        proof {
            assert forall|k: BackendKind| spec_kind_name(k) != name@ by {
                match k {
                    BackendKind::Haste => {}
                    BackendKind::ModernPaste => {}
                    BackendKind::Pipfi => {}
                    BackendKind::Sprunge => {}
                    BackendKind::Vpaste => {}
                }
            }
        }
        None
    }
}

/// The documentation text shown for a kind by the diagnostic subcommands.
pub open spec fn spec_info(k: BackendKind) -> Seq<char> {
    match k {
        BackendKind::Haste => HASTE_INFO@,
        BackendKind::ModernPaste => MODERN_PASTE_INFO@,
        BackendKind::Pipfi => PIPFI_INFO@,
        BackendKind::Sprunge => SPRUNGE_INFO@,
        BackendKind::Vpaste => VPASTE_INFO@,
    }
}

pub const HASTE_INFO: &'static str = r#"Haste backend.
Supports any servers running Haste <https://github.com/seejohnrun/haste-server>.
Official publicly available server for this is <https://hastebin.com/>.

Example config block:

    [servers.hastebin]
    backend = "haste"
    url = "https://hastebin.com/"
"#;

pub const MODERN_PASTE_INFO: &'static str = r#"Modern Paste backend.
modern-paste source: <https://github.com/LINKIWI/modern-paste/>.
Example popular instance of this is <https://paste.fedoraproject.org/>.

Example config block:

    [servers.fedora]
    backend = "modern_paste"
    url = "https://paste.fedoraproject.org/""#;

pub const PIPFI_INFO: &'static str = r#"Pipfi backend.
Supports <http://p.ip.fi/>.

Example config block:

    [servers.pip]
    backend = "pipfi"
    url = "http://p.ip.fi/"
"#;

pub const SPRUNGE_INFO: &'static str = r#"Sprunge backend.
Supports any servers running sprunge <https://github.com/rupa/sprunge>.

Example config block:

    [servers.sprunge]
    backend = "sprunge"
    url = "http://sprunge.us/"

    # Optional values

    # Filetype for syntax highlighting. Default is plain text. A custom syntax set also marks up
    # the content with html - not suitable for curl'ing as raw text.
    syntax = "py"
"#;

pub const VPASTE_INFO: &'static str = r#"Vpaste backend.
Supports any servers running vpaste <http://vpaste.net/>.

Example config block:

    [servers.vp]
    backend = "vpaste"
    url = "http://vpaste.net/"
"#;

pub fn info_of(k: BackendKind) -> (r: &'static str)
    ensures
        r@ == spec_info(k),
{
    match k {
        BackendKind::Haste => HASTE_INFO,
        BackendKind::ModernPaste => MODERN_PASTE_INFO,
        BackendKind::Pipfi => PIPFI_INFO,
        BackendKind::Sprunge => SPRUNGE_INFO,
        BackendKind::Vpaste => VPASTE_INFO,
    }
}

/// The documentation text for the modern_paste backend.
pub fn info() -> (r: &'static str)
    ensures
        r@ == spec_info(BackendKind::ModernPaste),
{
    MODERN_PASTE_INFO
}

/// Resolves a registered identifier to its documentation text. Returns `Ok`
/// exactly on registered identifiers, with that kind's text and no other; an
/// unregistered identifier gives back an error message naming it.
pub fn info_from_str(name: &str) -> (r: Result<&'static str, String>)
    ensures
        (r is Ok) <==> (exists|k: BackendKind| spec_kind_name(k) == name@),
        forall|k: BackendKind| spec_kind_name(k) == name@ ==> (r matches Ok(i) && i@ == spec_info(k)),
        r matches Err(m) ==> m@ == name@ + " is not a valid backend"@,
{
    match kind_from_name(name) {
        Some(k) => {
            proof {
                assert forall|k2: BackendKind| spec_kind_name(k2) == name@ implies k2 == k by {
                    if k2 != k {
                        lemma_kind_names_distinct(k2, k);
                    }
                }
            }
            Ok(info_of(k))
        }
        None => Err(String::from_str(name).concat(" is not a valid backend")),
    }
}

/// Strict lexicographic order on character sequences, by code point.
pub open spec fn lex_lt(a: Seq<char>, b: Seq<char>) -> bool
    decreases a.len(),
{
    if b.len() == 0 {
        false
    } else if a.len() == 0 {
        true
    } else if a[0] != b[0] {
        (a[0] as u32) < (b[0] as u32)
    } else {
        lex_lt(a.skip(1), b.skip(1))
    }
}

/// The registered identifiers in the order `list-backends` prints them.
pub open spec fn spec_backend_names() -> Seq<Seq<char>> {
    seq![
        spec_kind_name(BackendKind::Haste),
        spec_kind_name(BackendKind::ModernPaste),
        spec_kind_name(BackendKind::Pipfi),
        spec_kind_name(BackendKind::Sprunge),
        spec_kind_name(BackendKind::Vpaste),
    ]
}

/// Enumerates every registered kind identifier, in sorted order.
pub fn backend_names() -> (r: Vec<&'static str>)
    ensures
        r@.len() == spec_backend_names().len(),
        forall|i: int| 0 <= i < r@.len() ==> r@[i]@ == spec_backend_names()[i],
{
    let mut names: Vec<&'static str> = Vec::new();
    names.push("haste");
    names.push("modern_paste");
    names.push("pipfi");
    names.push("sprunge");
    names.push("vpaste");
    names
}

/// The printed identifier list is strictly sorted, and it carries exactly the
/// registered kind set: every registered kind's identifier appears in it, and
/// every entry is some registered kind's identifier.
pub proof fn lemma_backend_names_sorted_and_complete()
    ensures
        forall|i: int| 0 <= i < spec_backend_names().len() - 1 ==> #[trigger] lex_lt(
            spec_backend_names()[i],
            spec_backend_names()[i + 1],
        ),
        forall|k: BackendKind| spec_backend_names().contains(spec_kind_name(k)),
        forall|i: int| 0 <= i < spec_backend_names().len() ==> (exists|k: BackendKind|
            #[trigger] spec_backend_names()[i] == spec_kind_name(k)),
{
    reveal_strlit("haste");
    reveal_strlit("modern_paste");
    reveal_strlit("pipfi");
    reveal_strlit("sprunge");
    reveal_strlit("vpaste");
    assert(lex_lt("haste"@, "modern_paste"@));
    assert(lex_lt("modern_paste"@, "pipfi"@));
    assert(lex_lt("pipfi"@, "sprunge"@));
    assert(lex_lt("sprunge"@, "vpaste"@));
    assert forall|k: BackendKind| spec_backend_names().contains(spec_kind_name(k)) by {
        match k {
            BackendKind::Haste => assert(spec_backend_names()[0] == spec_kind_name(k)),
            BackendKind::ModernPaste => assert(spec_backend_names()[1] == spec_kind_name(k)),
            BackendKind::Pipfi => assert(spec_backend_names()[2] == spec_kind_name(k)),
            BackendKind::Sprunge => assert(spec_backend_names()[3] == spec_kind_name(k)),
            BackendKind::Vpaste => assert(spec_backend_names()[4] == spec_kind_name(k)),
        }
    }
    assert forall|i: int| 0 <= i < spec_backend_names().len() implies (exists|k: BackendKind|
        #[trigger] spec_backend_names()[i] == spec_kind_name(k)) by {
        if i == 0 {
            assert(spec_backend_names()[i] == spec_kind_name(BackendKind::Haste));
        } else if i == 1 {
            assert(spec_backend_names()[i] == spec_kind_name(BackendKind::ModernPaste));
        } else if i == 2 {
            assert(spec_backend_names()[i] == spec_kind_name(BackendKind::Pipfi));
        } else if i == 3 {
            assert(spec_backend_names()[i] == spec_kind_name(BackendKind::Sprunge));
        } else {
            assert(spec_backend_names()[i] == spec_kind_name(BackendKind::Vpaste));
        }
    }
}

} // verus!
