//! Selection of the one installer download link out of a fetched index page.
//! The page text is filtered line by line with substring heuristics, exactly
//! one surviving line is required, and the link is the first quoted href
//! value on that line.

use vstd::prelude::*;
use vstd::string::*;
use crate::strutil::{
    chars_of, contains_str, contains_sub, split_chars, split_on, string_of, views_of,
};
use crate::label::{game_version_ok, minor_of};
use crate::InstallError;

verus! {

/// `s` with every `\r\n` pair turned into a single `\n`.
pub open spec fn normalize_crlf(s: Seq<char>) -> Seq<char>
    decreases s.len(),
{
    if s.len() == 0 {
        s
    } else if s.len() >= 2 && s[0] == '\r' && s[1] == '\n' {
        seq!['\n'] + normalize_crlf(s.subrange(2, s.len() as int))
    } else {
        seq![s[0]] + normalize_crlf(s.subrange(1, s.len() as int))
    }
}

/// Line-ending normalization pass.
pub fn normalize_line_endings(s: &Vec<char>) -> (r: Vec<char>)
    ensures
        r@ == normalize_crlf(s@),
{
    let n = s.len();
    let mut r: Vec<char> = Vec::new();
    let mut i: usize = 0;
    proof {
        assert(s@.subrange(0, s@.len() as int) =~= s@);
        assert(r@ + normalize_crlf(s@) =~= normalize_crlf(s@));
    }
    while i < n
        invariant
            i <= n,
            n == s@.len(),
            normalize_crlf(s@) == r@ + normalize_crlf(s@.subrange(i as int, s@.len() as int)),
        decreases n - i,
    {
        let ghost rest = s@.subrange(i as int, s@.len() as int);
        if s[i] == '\r' && i + 1 < n && s[i + 1] == '\n' {
            proof {
                assert(rest[0] == s@[i as int] && rest[1] == s@[i + 1]);
                assert(rest.subrange(2, rest.len() as int) =~= s@.subrange(
                    i + 2,
                    s@.len() as int,
                ));
                assert(normalize_crlf(rest) == seq!['\n'] + normalize_crlf(
                    s@.subrange(i + 2, s@.len() as int),
                ));
                assert(r@ + normalize_crlf(rest) =~= r@.push('\n') + normalize_crlf(
                    s@.subrange(i + 2, s@.len() as int),
                ));
            }
            r.push('\n');
            i += 2;
        } else {
            proof {
                assert(rest[0] == s@[i as int]);
                assert(rest.subrange(1, rest.len() as int) =~= s@.subrange(
                    i + 1,
                    s@.len() as int,
                ));
                assert(normalize_crlf(rest) == seq![s@[i as int]] + normalize_crlf(
                    s@.subrange(i + 1, s@.len() as int),
                ));
                assert(r@ + normalize_crlf(rest) =~= r@.push(s@[i as int]) + normalize_crlf(
                    s@.subrange(i + 1, s@.len() as int),
                ));
            }
            let c = s[i];
            r.push(c);
            i += 1;
        }
    }
    proof {
        assert(s@.subrange(s@.len() as int, s@.len() as int) =~= Seq::<char>::empty());
        assert(normalize_crlf(Seq::<char>::empty()) == Seq::<char>::empty());
        assert(r@ + Seq::<char>::empty() =~= r@);
    }
    r
}

/// The required keyword for a minor game version: early versions shipped a
/// client installer, middle ones a universal jar, current ones an installer.
pub open spec fn keyword_for(minor: int) -> Seq<char> {
    if minor < 3 {
        "clie"@
    } else if minor < 13 {
        "uni"@
    } else {
        "ins"@
    }
}

/// Whether one index-page line is a candidate download line for the given
/// Forge version and minor game version.
pub open spec fn line_matches(line: Seq<char>, forge: Seq<char>, minor: int) -> bool {
    &&& contains_sub(line, "href="@)
    &&& contains_sub(line, keyword_for(minor))
    &&& contains_sub(line, forge + "-"@)
    &&& !contains_sub(line, "adfoc.us"@)
    &&& !contains_sub(line, "mdk"@)
    &&& !contains_sub(line, "changelog.txt"@)
    &&& !contains_sub(line, "info"@)
}

/// The line filter as a predicate value, for use with sequence filtering.
pub open spec fn line_pred(forge: Seq<char>, minor: int) -> spec_fn(Seq<char>) -> bool {
    |l: Seq<char>| line_matches(l, forge, minor)
}

/// The candidate lines of a whole index page.
pub open spec fn candidate_lines(doc: Seq<char>, forge: Seq<char>, minor: int) -> Seq<Seq<char>> {
    split_on(normalize_crlf(doc), '\n').filter(line_pred(forge, minor))
}

/// An href attribute opens at `i`: the literal `href="` starts there and a
/// closing quote follows with no quote or line break before it.
pub open spec fn href_match_at(s: Seq<char>, i: int) -> bool {
    &&& 0 <= i
    &&& i + 6 <= s.len()
    &&& s.subrange(i, i + 6) == "href=\""@
    &&& exists|j: int| href_close_at(s, i, j)
}

/// `j` is the position of the quote closing an href attribute opened at `i`.
pub open spec fn href_close_at(s: Seq<char>, i: int, j: int) -> bool {
    &&& i + 6 <= j < s.len()
    &&& s[j] == '"'
    &&& forall|k: int| i + 6 <= k < j ==> s[k] != '"' && s[k] != '\n'
}

/// Whether any href value can be extracted from the line.
pub open spec fn href_present(s: Seq<char>) -> bool {
    exists|i: int| href_match_at(s, i)
}

/// `h` is the href value of the leftmost href attribute of `s`.
pub open spec fn href_extracted(s: Seq<char>, h: Seq<char>) -> bool {
    exists|i: int, j: int|
        {
            &&& #[trigger] href_close_at(s, i, j)
            &&& href_match_at(s, i)
            &&& forall|i2: int| 0 <= i2 < i ==> !href_match_at(s, i2)
            &&& h == s.subrange(i + 6, j)
        }
}

/// Relies on regex::Regex::captures with the pattern `href="(.*?)"`: the
/// match starts at the leftmost position where the whole pattern can match,
/// and the lazy group ends at the first closing quote, which the dot cannot
/// cross a line break to reach.
#[verifier::external_body]
fn capture_href(line: &str) -> (r: Option<String>)
    ensures
        r is Some <==> href_present(line@),
        match r {
            Some(h) => href_extracted(line@, h@),
            None => true,
        },
{
    let re = match regex::Regex::new(r#"href="(.*?)""#) {
        Ok(re) => re,
        Err(_) => return None,
    };
    let caps = re.captures(line)?;
    Some(caps.get(1)?.as_str().to_string())
}

/// Picks the single installer download link out of a fetched index page.
///
/// Exactly one line may survive the filter and must carry a quoted href
/// value; zero or several surviving lines, or a line without one, fail.
pub fn find_download_link(document: &str, forge_version: &str, minecraft_version: &str) -> (r:
    Result<String, InstallError>)
    ensures
        r is Ok <==> game_version_ok(minecraft_version@) && candidate_lines(
            document@,
            forge_version@,
            minor_of(minecraft_version@),
        ).len() == 1 && href_present(
            candidate_lines(document@, forge_version@, minor_of(minecraft_version@))[0],
        ),
        r is Ok ==> href_extracted(
            candidate_lines(document@, forge_version@, minor_of(minecraft_version@))[0],
            r.unwrap()@,
        ),
        r is Err ==> r.unwrap_err() == (if game_version_ok(minecraft_version@) {
            InstallError::AmbiguousOrMissingLink
        } else {
            InstallError::MalformedVersion
        }),
{
    let mcv = chars_of(minecraft_version);
    let segs = split_chars(&mcv, '.');
    if segs.len() < 2 {
        return Err(InstallError::MalformedVersion);
    }
    proof {
        assert(views_of(segs@)[1] == segs@[1]@);
    }
    let minor: u32 = match crate::strutil::parse_u32(&segs[1]) {
        Some(m) => m,
        None => {
            return Err(InstallError::MalformedVersion);
        },
    };
    let docv = chars_of(document);
    let normalized = normalize_line_endings(&docv);
    let lines = split_chars(&normalized, '\n');
    let ghost pred = line_pred(forge_version@, minor as int);
    let mut forge_dash = String::from_str(forge_version);
    forge_dash.append("-");
    let keyword: &str = if minor < 3 {
        "clie"
    } else if minor < 13 {
        "uni"
    } else {
        "ins"
    };
    let mut survivors: Vec<Vec<char>> = Vec::new();
    let mut i: usize = 0;
    proof {
        assert(views_of(lines@).take(0int).filter(pred) =~= Seq::<Seq<char>>::empty());
        assert(views_of(survivors@) =~= Seq::<Seq<char>>::empty());
    }
    while i < lines.len()
        invariant
            i <= lines@.len(),
            keyword@ == keyword_for(minor as int),
            forge_dash@ == forge_version@ + "-"@,
            pred == line_pred(forge_version@, minor as int),
            views_of(survivors@) == views_of(lines@).take(i as int).filter(pred),
        decreases lines@.len() - i,
    {
        let line = &lines[i];
        let is_match = contains_str(line, "href=") && contains_str(line, keyword) && contains_str(
            line,
            forge_dash.as_str(),
        ) && !contains_str(line, "adfoc.us") && !contains_str(line, "mdk") && !contains_str(
            line,
            "changelog.txt",
        ) && !contains_str(line, "info");
        proof {
            assert(views_of(lines@)[i as int] == lines@[i as int]@);
            assert(is_match == pred(lines@[i as int]@));
            assert(views_of(lines@).take(i + 1 as int) =~= views_of(lines@).take(
                i as int,
            ).push(lines@[i as int]@));
            crate::strutil::lemma_filter_push(
                views_of(lines@).take(i as int),
                lines@[i as int]@,
                pred,
            );
        }
        if is_match {
            let kept = crate::strutil::sub_chars(line, 0, line.len());
            proof {
                assert(kept@ =~= lines@[i as int]@);
            }
            survivors.push(kept);
            proof {
                assert(views_of(survivors@) =~= views_of(lines@).take(i as int).filter(
                    pred,
                ).push(lines@[i as int]@));
            }
        }
        i += 1;
    }
    proof {
        assert(views_of(lines@).take(lines@.len() as int) =~= views_of(lines@));
        assert(views_of(survivors@) == candidate_lines(
            document@,
            forge_version@,
            minor_of(minecraft_version@),
        ));
    }
    if survivors.len() != 1 {
        return Err(InstallError::AmbiguousOrMissingLink);
    }
    let line_string = string_of(&survivors[0]);
    proof {
        assert(views_of(survivors@)[0] == survivors@[0]@);
    }
    match capture_href(line_string.as_str()) {
        Some(h) => Ok(h),
        None => Err(InstallError::AmbiguousOrMissingLink),
    }
}

} // verus!
