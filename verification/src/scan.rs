//! Scanning the main document's text for the package directives that decide
//! which extra toolchain passes a build needs.
//!
//! A directive is the literal `\usepackage`, an optional bracketed option
//! list whose text holds no further square bracket, and the package name in
//! braces. Deliberately narrow, exactly as stated: directives pulled in by a
//! secondary file, or option lists with nested brackets, are not detected.

use vstd::prelude::*;

use crate::ascii::{ascii_bytes, bytes_of, wrap_bytes};
use crate::logs::Log;

verus! {

/// `[`, opening an option list.
pub const LBRACKET: u8 = 91;

/// `]`, closing an option list.
pub const RBRACKET: u8 = 93;

/// `{`, opening a package name.
pub const LBRACE: u8 = 123;

/// `}`, closing a package name.
pub const RBRACE: u8 = 125;

/// The directive keyword, `\usepackage`.
pub open spec fn spec_usepackage() -> Seq<u8> {
    ascii_bytes("\\usepackage"@)
}

/// `s[j .. k)` is a bracketed option list: brackets at both ends and no
/// bracket of either kind between them.
pub open spec fn options_group_at(s: Seq<u8>, j: int, k: int) -> bool {
    &&& 0 <= j
    &&& j + 2 <= k <= s.len()
    &&& s[j] == LBRACKET
    &&& s[k - 1] == RBRACKET
    &&& forall|m: int| j < m < k - 1 ==> s[m] != LBRACKET && s[m] != RBRACKET
}

/// At `j`, `s` holds `name` enclosed in braces.
pub open spec fn braced_name_at(s: Seq<u8>, j: int, name: Seq<u8>) -> bool {
    &&& 0 <= j
    &&& j + name.len() + 2 <= s.len()
    &&& s[j] == LBRACE
    &&& s.subrange(j + 1, j + 1 + name.len() as int) == name
    &&& s[j + 1 + name.len()] == RBRACE
}

/// At `i`, `s` holds a whole package directive for `name`: the keyword,
/// then the braced name either directly or after one option list.
pub open spec fn directive_at(s: Seq<u8>, i: int, name: Seq<u8>) -> bool {
    &&& 0 <= i
    &&& i + 11 <= s.len()
    &&& s.subrange(i, i + 11) == spec_usepackage()
    &&& (braced_name_at(s, i + 11, name) || exists|k: int|
        #[trigger] options_group_at(s, i + 11, k) && braced_name_at(s, k, name))
}

/// A package directive for `name` stands somewhere in `s`.
pub open spec fn contains_directive(s: Seq<u8>, name: Seq<u8>) -> bool {
    exists|i: int| #[trigger] directive_at(s, i, name)
}

/// True when `pat` stands in `s` at position `i`.
fn match_at(s: &Vec<u8>, i: usize, pat: &Vec<u8>) -> (r: bool)
    requires
        i <= s@.len(),
    ensures
        r == (i + pat@.len() <= s@.len() && s@.subrange(i as int, i + pat@.len() as int) == pat@),
{
    if pat.len() > s.len() - i {
        return false;
    }
    let mut n: usize = 0;
    while n < pat.len()
        invariant
            0 <= n <= pat@.len(),
            i + pat@.len() <= s@.len() <= usize::MAX,
            forall|j: int| 0 <= j < n ==> s@[i + j] == pat@[j],
        decreases pat@.len() - n,
    {
        if s[i + n] != pat[n] {
            proof {
                assert(s@.subrange(i as int, i + pat@.len() as int)[n as int] != pat@[n as int]);
            }
            return false;
        }
        n = n + 1;
    }
    proof {
        assert(s@.subrange(i as int, i + pat@.len() as int) =~= pat@);
    }
    true
}

/// True when `name` stands braced in `s` at position `j`.
fn braced_name_check(s: &Vec<u8>, j: usize, name: &Vec<u8>) -> (r: bool)
    requires
        j <= s@.len(),
    ensures
        r == braced_name_at(s@, j as int, name@),
{
    if j >= s.len() || s[j] != LBRACE {
        return false;
    }
    if !match_at(s, j + 1, name) {
        return false;
    }
    let end = j + 1 + name.len();
    if end >= s.len() {
        return false;
    }
    if s[end] != RBRACE {
        return false;
    }
    proof {
        assert(s@.subrange(j + 1 as int, j + 1 + name@.len() as int) == name@);
    }
    true
}

/// True when a whole package directive for `name` stands at position `i`.
fn directive_check_at(s: &Vec<u8>, i: usize, name: &Vec<u8>, keyword: &Vec<u8>) -> (r: bool)
    requires
        i <= s@.len(),
        keyword@ == spec_usepackage(),
        keyword@.len() == 11,
    ensures
        r == directive_at(s@, i as int, name@),
{
    if !match_at(s, i, keyword) {
        return false;
    }
    let slen = s.len();
    assert(i + 11 <= slen);
    let j = i + 11;
    if j < s.len() && s[j] == LBRACKET {
        // The option list can only end at the first bracket byte after it,
        // and only if that byte closes it.
        let mut k = j + 1;
        while k < s.len() && s[k] != LBRACKET && s[k] != RBRACKET
            invariant
                j + 1 <= k <= s@.len(),
                forall|m: int| j < m < k ==> s@[m] != LBRACKET && s@[m] != RBRACKET,
            decreases s@.len() - k,
        {
            k = k + 1;
        }
        if k < s.len() && s[k] == RBRACKET {
            let r = braced_name_check(s, k + 1, name);
            proof {
                if r {
                    assert(options_group_at(s@, j as int, k + 1 as int));
                } else {
                    assert forall|k2: int| !(options_group_at(s@, j as int, k2)
                        && braced_name_at(s@, k2, name@)) by {
                        if options_group_at(s@, j as int, k2) {
                            if k2 - 1 < k {
                                assert(s@[k2 - 1] != RBRACKET);
                            } else if k2 - 1 > k {
                                assert(s@[k as int] != LBRACKET && s@[k as int] != RBRACKET);
                            }
                            assert(k2 == k + 1);
                        }
                    }
                    assert(!braced_name_at(s@, i + 11 as int, name@));
                }
            }
            r
        } else {
            proof {
                assert forall|k2: int| !options_group_at(s@, j as int, k2) by {
                    if options_group_at(s@, j as int, k2) {
                        if k2 - 1 < k {
                            assert(s@[k2 - 1] != RBRACKET);
                        } else if k2 - 1 == k {
                            assert(k < s@.len());
                            assert(s@[k as int] == RBRACKET);
                        } else {
                            assert(s@[k as int] != LBRACKET && s@[k as int] != RBRACKET);
                        }
                        assert(false);
                    }
                }
                assert(!braced_name_at(s@, i + 11 as int, name@));
            }
            false
        }
    } else {
        let r = braced_name_check(s, j, name);
        proof {
            assert forall|k2: int| !options_group_at(s@, j as int, k2) by {
                if options_group_at(s@, j as int, k2) {
                    assert(j < s@.len());
                }
            }
        }
        r
    }
}

/// True when a package directive for `name` stands anywhere in `content`.
pub fn contains_package_directive(content: &Vec<u8>, name: &Vec<u8>) -> (r: bool)
    ensures
        r == contains_directive(content@, name@),
{
    proof {
        reveal_strlit("\\usepackage");
    }
    let keyword = bytes_of("\\usepackage");
    let mut i: usize = 0;
    while i < content.len()
        invariant
            0 <= i <= content@.len(),
            keyword@ == spec_usepackage(),
            keyword@.len() == 11,
            forall|i2: int| 0 <= i2 < i ==> !#[trigger] directive_at(content@, i2, name@),
        decreases content@.len() - i,
    {
        if directive_check_at(content, i, name, &keyword) {
            return true;
        }
        i = i + 1;
    }
    proof {
        assert forall|i2: int| !#[trigger] directive_at(content@, i2, name@) by {
            if directive_at(content@, i2, name@) {
                assert(0 <= i2 && i2 + 11 <= content@.len());
            }
        }
    }
    false
}

/// Which extra passes the document asks for, read once from its text.
pub struct FeatureFlags {
    /// The document uses the glossary package.
    pub has_glossary: bool,
    /// The document uses one of the recognized bibliography packages.
    pub has_bibliography: bool,
}

/// The document holds a glossary-package directive.
pub open spec fn spec_has_glossary(s: Seq<u8>) -> bool {
    contains_directive(s, ascii_bytes("glossaries"@))
}

/// The document holds a directive for one of the three recognized
/// bibliography packages.
pub open spec fn spec_has_bibliography(s: Seq<u8>) -> bool {
    ||| contains_directive(s, ascii_bytes("biblatex"@))
    ||| contains_directive(s, ascii_bytes("bibtex"@))
    ||| contains_directive(s, ascii_bytes("natbib"@))
}

/// Reads both feature flags off the document's raw text.
pub fn scan_features(content: &Vec<u8>) -> (r: FeatureFlags)
    ensures
        r.has_glossary == spec_has_glossary(content@),
        r.has_bibliography == spec_has_bibliography(content@),
{
    proof {
        reveal_strlit("glossaries");
        reveal_strlit("biblatex");
        reveal_strlit("bibtex");
        reveal_strlit("natbib");
    }
    let glossaries = bytes_of("glossaries");
    let biblatex = bytes_of("biblatex");
    let bibtex = bytes_of("bibtex");
    let natbib = bytes_of("natbib");
    let has_glossary = contains_package_directive(content, &glossaries);
    let has_bibliography = contains_package_directive(content, &biblatex)
        || contains_package_directive(content, &bibtex) || contains_package_directive(
        content,
        &natbib,
    );
    FeatureFlags { has_glossary, has_bibliography }
}

/// The error reported when the main document cannot be read.
pub fn read_main_error(path: &Vec<u8>, detail: &Vec<u8>) -> (r: Log)
    ensures
        r matches Log::FileSystemError(m) && m@ == msg_read_main_failed(path@, detail@),
{
    proof {
        reveal_strlit("Failed to read the content of `");
        reveal_strlit(
            "`. Unable to determine the presence of glossary and/or bibliography.\n",
        );
    }
    let mut m = wrap_bytes(
        "Failed to read the content of `",
        path,
        "`. Unable to determine the presence of glossary and/or bibliography.\n",
    );
    m.extend_from_slice(detail.as_slice());
    proof {
        assert(m@ =~= msg_read_main_failed(path@, detail@));
    }
    Log::FileSystemError(m)
}

pub open spec fn msg_read_main_failed(p: Seq<u8>, detail: Seq<u8>) -> Seq<u8> {
    ascii_bytes("Failed to read the content of `"@) + p + ascii_bytes(
        "`. Unable to determine the presence of glossary and/or bibliography.\n"@,
    ) + detail
}

} // verus!
