use vstd::prelude::*;
use vstd::string::StrSliceExecFns;
use vstd::string::StringExecFns;

verus! {

/// The search document up to the opening of the scope's `href`, which the
/// user scope completes.
pub const BODY_PREFIX: &'static str = r#"<?xml version="1.0" encoding="UTF-8"?>
            <d:searchrequest xmlns:d="DAV:" xmlns:oc="http://owncloud.org/ns">
                <d:basicsearch>
                    <d:select><d:prop><d:displayname/></d:prop></d:select>
                    <d:from>
                        <d:scope>
                            <d:href>/files/"#;

/// The search document between the scope's `href` and the file-identifier
/// literal of the equality predicate.
pub const BODY_MID: &'static str = r#"</d:href>
                            <d:depth>infinity</d:depth>
                        </d:scope>
                    </d:from>
                    <d:where>
                        <d:eq>
                            <d:prop><oc:fileid/></d:prop>
                            <d:literal>"#;

/// The search document after the file-identifier literal.
pub const BODY_SUFFIX: &'static str = r#"</d:literal>
                        </d:eq>
                    </d:where>
                    <d:orderby/>
                </d:basicsearch>
            </d:searchrequest>"#;

/// One property-search request: the numeric file identifier searched for and
/// the user scope (the root of the file tree searched). Built per request and
/// discarded after resolution.
pub struct SearchQuery {
    pub file_id: i32,
    pub user_scope: String,
}

/// Appends one character to a string. Relies on String::push of std: it
/// appends the given char to the end of the string.
pub assume_specification[ String::push ](s: &mut String, c: char)
    ensures
        final(s)@ == old(s)@.push(c),
;

/// The replacement of one character inside XML text or attribute content:
/// the five characters with markup meaning become entity references, every
/// other character stands unchanged.
pub open spec fn escape_char(c: char) -> Seq<char> {
    match c {
        '&' => "&amp;"@,
        '<' => "&lt;"@,
        '>' => "&gt;"@,
        '"' => "&quot;"@,
        '\'' => "&apos;"@,
        _ => seq![c],
    }
}

/// Character-wise XML escaping of a whole text.
pub open spec fn escape_text(s: Seq<char>) -> Seq<char>
    decreases s.len(),
{
    if s.len() == 0 {
        Seq::empty()
    } else {
        escape_char(s[0]) + escape_text(s.drop_first())
    }
}

proof fn lemma_escape_text_snoc(s: Seq<char>, c: char)
    ensures
        escape_text(s.push(c)) == escape_text(s) + escape_char(c),
    decreases s.len(),
{
    let sc = s.push(c);
    if s.len() == 0 {
        assert(sc[0] == c);
        assert(sc.drop_first() =~= Seq::<char>::empty());
        assert(escape_text(sc) == escape_char(c) + escape_text(Seq::<char>::empty()));
        assert(escape_char(c) + Seq::<char>::empty() =~= escape_char(c));
        assert(escape_text(s) + escape_char(c) =~= escape_char(c));
    } else {
        assert(sc.drop_first() =~= s.drop_first().push(c));
        lemma_escape_text_snoc(s.drop_first(), c);
        assert(escape_char(sc[0]) + (escape_text(s.drop_first()) + escape_char(c)) =~= (
        escape_char(s[0]) + escape_text(s.drop_first())) + escape_char(c));
    }
}

/// Escapes a text for embedding in XML content, exactly as `escape_text`
/// states it.
pub fn xml_escape(s: &str) -> (r: String)
    ensures
        r@ == escape_text(s@),
{
    let n = s.unicode_len();
    let mut out = String::new();
    let mut i: usize = 0;
    proof {
        assert(s@.take(0) =~= Seq::<char>::empty());
    }
    while i < n
        invariant
            n == s@.len(),
            0 <= i <= n,
            out@ == escape_text(s@.take(i as int)),
        decreases n - i,
    {
        let c = s.get_char(i);
        match c {
            '&' => out.append("&amp;"),
            '<' => out.append("&lt;"),
            '>' => out.append("&gt;"),
            '"' => out.append("&quot;"),
            '\'' => out.append("&apos;"),
            _ => out.push(c),
        }
        proof {
            lemma_escape_text_snoc(s@.take(i as int), s@[i as int]);
            assert(s@.take(i + 1) =~= s@.take(i as int).push(s@[i as int]));
        }
        i += 1;
    }
    proof {
        assert(s@.take(n as int) =~= s@);
    }
    out
}

/// The decimal digit character for one value in 0..=9.
pub open spec fn spec_digit(d: int) -> char
    recommends
        0 <= d <= 9,
{
    ((48 + d) as u8) as char
}

/// The decimal digits of a natural number, most significant first, with no
/// sign and no leading zero (a single zero for 0).
pub open spec fn spec_nat_digits(n: nat) -> Seq<char>
    decreases n,
{
    if n < 10 {
        seq![spec_digit(n as int)]
    } else {
        spec_nat_digits(n / 10).push(spec_digit((n % 10) as int))
    }
}

/// The decimal rendering of an integer: a leading minus sign for negative
/// values, then the digits of the magnitude.
pub open spec fn spec_int_digits(n: int) -> Seq<char> {
    if n < 0 {
        seq!['-'] + spec_nat_digits((-n) as nat)
    } else {
        spec_nat_digits(n as nat)
    }
}

fn digit_char(d: u64) -> (c: char)
    requires
        d <= 9,
    ensures
        c == spec_digit(d as int),
{
    (48 + d as u8) as char
}

fn push_digits(out: &mut String, n: u64)
    ensures
        final(out)@ == old(out)@ + spec_nat_digits(n as nat),
    decreases n,
{
    if n < 10 {
        out.push(digit_char(n));
        proof {
            assert(old(out)@ + spec_nat_digits(n as nat) =~= old(out)@.push(
                spec_digit(n as int),
            ));
        }
    } else {
        push_digits(out, n / 10);
        out.push(digit_char(n % 10));
        proof {
            assert(old(out)@ + spec_nat_digits(n as nat) =~= (old(out)@ + spec_nat_digits(
                (n / 10) as nat,
            )).push(spec_digit((n % 10) as int)));
        }
    }
}

/// Renders a file identifier in decimal, exactly as `spec_int_digits` states
/// it.
pub fn format_file_id(id: i32) -> (r: String)
    ensures
        r@ == spec_int_digits(id as int),
{
    let mut out = String::new();
    if id < 0 {
        out.push('-');
        let mag: u64 = (-(id as i64)) as u64;
        push_digits(&mut out, mag);
        proof {
            assert(Seq::<char>::empty().push('-') + spec_nat_digits((-(id as int)) as nat) =~= seq![
                '-',
            ] + spec_nat_digits((-(id as int)) as nat));
        }
    } else {
        push_digits(&mut out, id as u64);
        proof {
            assert(Seq::<char>::empty() + spec_nat_digits(id as nat) =~= spec_nat_digits(
                id as nat,
            ));
        }
    }
    out
}

/// The whole property-search request body: a WebDAV basicsearch document
/// that selects `displayname`, scopes the search to the user's file tree at
/// infinite depth, and filters by equality on the file identifier. The user
/// scope stands XML-escaped; the identifier stands in decimal.
pub open spec fn spec_search_body(file_id: int, user_scope: Seq<char>) -> Seq<char> {
    BODY_PREFIX@ + escape_text(user_scope) + BODY_MID@ + spec_int_digits(file_id) + BODY_SUFFIX@
}

/// Builds the search request body for one query, exactly as
/// `spec_search_body` states it.
pub fn build_search_body(query: &SearchQuery) -> (r: String)
    ensures
        r@ == spec_search_body(query.file_id as int, query.user_scope@),
{
    let mut out: String = BODY_PREFIX.to_owned();
    let escaped = xml_escape(query.user_scope.as_str());
    out.append(escaped.as_str());
    out.append(BODY_MID);
    let digits = format_file_id(query.file_id);
    out.append(digits.as_str());
    out.append(BODY_SUFFIX);
    proof {
        assert(out@ =~= spec_search_body(query.file_id as int, query.user_scope@));
    }
    out
}

} // verus!
