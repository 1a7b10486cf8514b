//! Derivation of the installer-internal version label from the requested
//! game version and modloader (Forge) version, encoding the historical
//! maven-naming quirks of the vendor's archive layout.

use vstd::prelude::*;
use vstd::string::*;
use crate::strutil::{
    chars_eq, chars_of, dec_val, is_digits, lemma_filter_push, parse_u32, split_chars, split_on,
    str_eq, string_of, views_of,
};
use crate::InstallError;

verus! {

/// The dot-separated segments of a game version string.
pub open spec fn version_segments(mc: Seq<char>) -> Seq<Seq<char>> {
    split_on(mc, '.')
}

/// A game version is usable when it has at least two segments and the second
/// one is a decimal number that fits a machine word.
pub open spec fn game_version_ok(mc: Seq<char>) -> bool {
    let segs = version_segments(mc);
    &&& segs.len() >= 2
    &&& is_digits(segs[1])
    &&& dec_val(segs[1]) <= u32::MAX
}

/// The minor number of a game version: the value of its second segment.
pub open spec fn minor_of(mc: Seq<char>) -> int {
    dec_val(version_segments(mc)[1])
}

/// The three Forge releases whose labels carry the `mc` suffix form.
pub open spec fn special_forge_version(v: Seq<char>) -> bool {
    v == "10.12.2.1154"@ || v == "10.12.2.1155"@ || v == "10.12.2.1161"@
}

/// The game version with its dots removed.
pub open spec fn without_dots(s: Seq<char>) -> Seq<char> {
    s.filter(|c: char| c != '.')
}

/// The installer's internal version label for a usable game version.
pub open spec fn label_of(mc: Seq<char>, forge: Seq<char>) -> Seq<char> {
    let segs = version_segments(mc);
    let minor = minor_of(mc);
    if 7 <= minor <= 8 {
        if segs.len() >= 3 && segs[2] == "2"@ && special_forge_version(forge) {
            mc + "-"@ + forge + "-mc"@ + without_dots(mc)
        } else {
            mc + "-"@ + forge + "-"@ + mc
        }
    } else {
        mc + "-"@ + forge
    }
}

/// The characters of `s` with every dot dropped.
fn remove_dots(s: &Vec<char>) -> (r: Vec<char>)
    ensures
        r@ == without_dots(s@),
{
    let mut r: Vec<char> = Vec::new();
    let mut i: usize = 0;
    proof {
        reveal(Seq::filter);
        assert(s@.take(0int).filter(|c: char| c != '.') =~= Seq::<char>::empty());
    }
    while i < s.len()
        invariant
            i <= s@.len(),
            r@ == s@.take(i as int).filter(|c: char| c != '.'),
        decreases s.len() - i,
    {
        proof {
            assert(s@.take(i + 1 as int) =~= s@.take(i as int).push(s@[i as int]));
            lemma_filter_push(s@.take(i as int), s@[i as int], |c: char| c != '.');
        }
        let c = s[i];
        if c != '.' {
            r.push(c);
        }
        i += 1;
    }
    proof {
        assert(s@.take(s@.len() as int) =~= s@);
    }
    r
}

/// Derives the installer's internal version label.
///
/// Fails exactly when the game version has fewer than two dot-separated
/// segments or its second segment is not a number; no input makes it panic.
pub fn forge_version_label(mcversion: &str, forge_version: &str) -> (r: Result<
    String,
    InstallError,
>)
    ensures
        r is Ok <==> game_version_ok(mcversion@),
        r is Ok ==> r.unwrap()@ == label_of(mcversion@, forge_version@),
        r is Err ==> r.unwrap_err() == InstallError::MalformedVersion,
{
    let mcv = chars_of(mcversion);
    let segs = split_chars(&mcv, '.');
    if segs.len() < 2 {
        return Err(InstallError::MalformedVersion);
    }
    proof {
        assert(views_of(segs@)[1] == segs@[1]@);
    }
    let minor = match parse_u32(&segs[1]) {
        Some(m) => m,
        None => {
            return Err(InstallError::MalformedVersion);
        },
    };
    if 7 <= minor && minor <= 8 {
        let special = str_eq(forge_version, "10.12.2.1154") || str_eq(
            forge_version,
            "10.12.2.1155",
        ) || str_eq(forge_version, "10.12.2.1161");
        let patch_is_two = if segs.len() >= 3 {
            proof {
                assert(views_of(segs@)[2] == segs@[2]@);
            }
            let two = chars_of("2");
            chars_eq(&segs[2], &two)
        } else {
            false
        };
        if special && patch_is_two {
            let nodots = remove_dots(&mcv);
            let nodots_str = string_of(&nodots);
            let mut out = String::from_str(mcversion);
            out.append("-");
            out.append(forge_version);
            out.append("-mc");
            out.append(nodots_str.as_str());
            Ok(out)
        } else {
            let mut out = String::from_str(mcversion);
            out.append("-");
            out.append(forge_version);
            out.append("-");
            out.append(mcversion);
            Ok(out)
        }
    } else {
        let mut out = String::from_str(mcversion);
        out.append("-");
        out.append(forge_version);
        Ok(out)
    }
}

} // verus!
