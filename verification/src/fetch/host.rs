//! The host in the text of a URL, and whether it can be encoded.

use vstd::prelude::*;

use url::idna::domain_to_unicode;
use url::percent_encoding::percent_decode;

verus! {

/// The longest text of a URL. Its characters are counted in 32 bits.
pub const MAX_URL_LENGTH: usize = 0x7fff_ffff;

/// The longest domain that can be mapped. Each character becomes at most 18, which are counted in
/// 32 bits.
pub const MAX_DOMAIN: usize = 0x0e38_e38d;

/// A class of characters.
#[derive(Debug, Clone, Copy, PartialEq, Eq)]
pub enum CharClass {
    /// Control characters and spaces, which are ignored around a URL.
    Blank,
    /// What the name of a scheme consists of.
    Scheme,
    /// Slashes and backslashes.
    Slash,
    /// What does not end a host.
    Host,
    /// What does not end a label of a domain.
    Label,
}

impl CharClass {
    /// Whether a character is in the class.
    pub open spec fn has(self, c: char) -> bool {
        match self {
            CharClass::Blank => c <= ' ',
            CharClass::Scheme => is_letter(c) || '0' <= c <= '9' || c == '+' || c == '-' || c
                == '.',
            CharClass::Slash => c == '/' || c == '\\',
            CharClass::Host => c != '/' && c != '\\' && c != '?' && c != '#',
            CharClass::Label => c != '.',
        }
    }

    /// Whether a character is in the class.
    fn contains(self, c: char) -> (contained: bool)
        ensures
            contained == self.has(c),
    {
        match self {
            CharClass::Blank => c <= ' ',
            CharClass::Scheme => letter(c) || ('0' <= c && c <= '9') || c == '+' || c == '-' || c
                == '.',
            CharClass::Slash => c == '/' || c == '\\',
            CharClass::Host => c != '/' && c != '\\' && c != '?' && c != '#',
            CharClass::Label => c != '.',
        }
    }
}

/// Whether a character is a letter of ASCII.
pub open spec fn is_letter(c: char) -> bool {
    'a' <= c <= 'z' || 'A' <= c <= 'Z'
}

/// Tells the characters that count in the text of a URL from tabs and line ends.
pub open spec fn counts() -> spec_fn(char) -> bool {
    |c: char| c != '\t' && c != '\n' && c != '\r'
}

/// How many characters at the start of a text are in a class.
pub open spec fn run_length(text: Seq<char>, class: CharClass) -> nat
    decreases text.len(),
{
    if text.len() > 0 && class.has(text[0]) {
        1 + run_length(text.skip(1), class)
    } else {
        0
    }
}

/// A text without the characters of a class at its end.
pub open spec fn trim_end(text: Seq<char>, class: CharClass) -> Seq<char>
    decreases text.len(),
{
    if text.len() > 0 && class.has(text.last()) {
        trim_end(text.drop_last(), class)
    } else {
        text
    }
}

/// What counts in the text of a URL.
pub open spec fn significant(text: Seq<char>) -> Seq<char> {
    let counting = text.filter(counts());
    trim_end(
        counting.skip(run_length(counting, CharClass::Blank) as int),
        CharClass::Blank,
    )
}

/// Whether a text starts with a scheme and its colon.
pub open spec fn has_scheme(text: Seq<char>) -> bool {
    let name = run_length(text, CharClass::Scheme);
    &&& text.len() > 0
    &&& is_letter(text[0])
    &&& name < text.len()
    &&& text[name as int] == ':'
}

/// The name of the scheme that a text starts with.
pub open spec fn scheme_name(text: Seq<char>) -> Seq<char> {
    text.take(run_length(text, CharClass::Scheme) as int)
}

/// What follows the scheme of a text, if it has one.
pub open spec fn after_scheme(text: Seq<char>) -> Seq<char> {
    if has_scheme(text) {
        text.skip(run_length(text, CharClass::Scheme) as int + 1)
    } else {
        text
    }
}

/// Whether a name is a word in small letters, or differs from it in capitals only.
pub open spec fn spells(name: Seq<char>, word: Seq<char>) -> bool {
    &&& name.len() == word.len()
    &&& forall|i: int|
        0 <= i < name.len() ==> (#[trigger] name[i] == word[i] || 'A' <= name[i] <= 'Z'
            && name[i] as int + 32 == word[i] as int)
}

/// How the rest of a URL is read.
#[derive(Debug, Clone, Copy, PartialEq, Eq, Structural)]
pub enum SchemeKind {
    /// As a file.
    File,
    /// As a server with a domain.
    Server,
    /// As it stands.
    Opaque,
}

/// How the rest of a URL is read, by its scheme.
pub open spec fn scheme_kind(name: Seq<char>) -> SchemeKind {
    if spells(name, "file"@) {
        SchemeKind::File
    } else if spells(name, "http"@) || spells(name, "https"@) || spells(name, "ws"@) || spells(
        name,
        "wss"@,
    ) || spells(name, "ftp"@) || spells(name, "gopher"@) {
        SchemeKind::Server
    } else {
        SchemeKind::Opaque
    }
}

/// A text up to where a host in it ends.
pub open spec fn up_to_end(text: Seq<char>) -> Seq<char> {
    text.take(run_length(text, CharClass::Host) as int)
}

/// What follows the last at sign of a text, or all of it.
pub open spec fn after_user(text: Seq<char>) -> Seq<char>
    decreases text.len(),
{
    if text.len() == 0 || text.last() == '@' {
        Seq::empty()
    } else {
        after_user(text.drop_last()).push(text.last())
    }
}

/// How many characters come before the first colon, but for those in square brackets.
pub open spec fn colon_position(text: Seq<char>, bracketed: bool) -> nat
    decreases text.len(),
{
    if text.len() == 0 || text[0] == ':' && !bracketed {
        0
    } else {
        1 + colon_position(text.skip(1), text[0] == '[' || bracketed && text[0] != ']')
    }
}

/// The domain of a server with a user and a port.
pub open spec fn domain_of(authority: Seq<char>) -> Seq<char> {
    let server = after_user(authority);
    server.take(colon_position(server, false) as int)
}

/// The host to encode in what counts in a text, by the scheme of the URL that it is joined to.
pub open spec fn host_in(text: Seq<char>, base: Option<Seq<char>>) -> Option<Seq<char>> {
    let scheme = if has_scheme(text) {
        Some(scheme_name(text))
    } else {
        base
    };
    let rest = after_scheme(text);
    let slashes = run_length(rest, CharClass::Slash);
    match scheme {
        None => None,
        Some(name) => match scheme_kind(name) {
            SchemeKind::File => if slashes >= 2 {
                Some(up_to_end(rest.skip(2)))
            } else {
                None
            },
            SchemeKind::Server => if slashes < 2 && (base matches Some(b) && spells(name, b)) {
                None
            } else {
                Some(domain_of(up_to_end(rest.skip(slashes as int))))
            },
            SchemeKind::Opaque => None,
        },
    }
}

/// The text that `percent_decode` and `decode_utf8_lossy` make of another one.
pub uninterp spec fn percent_decoded(text: Seq<char>) -> Seq<char>;

/// The domain that `domain_to_unicode` makes of another one: mapped, normalized, and with its
/// encoded labels decoded.
pub uninterp spec fn mapped_domain(domain: Seq<char>) -> Seq<char>;

/// Whether an encoded label of a domain starts at a position.
pub open spec fn encoded_at(host: Seq<char>, i: int) -> bool {
    &&& i == 0 || host[i - 1] == '.'
    &&& i + 4 <= host.len()
    &&& host[i] == 'x' || host[i] == 'X'
    &&& host[i + 1] == 'n' || host[i + 1] == 'N'
    &&& host[i + 2] == '-'
    &&& host[i + 3] == '-'
}

/// Whether a host is mapped to ASCII characters: it has no others, and nothing to decode.
pub open spec fn is_plain(host: Seq<char>) -> bool {
    forall|i: int|
        0 <= i < host.len() ==> (#[trigger] host[i]) <= '\u{7f}' && host[i] != '%' && !encoded_at(
            host,
            i,
        )
}

/// How many characters of a label come before a character.
pub open spec fn smaller(label: Seq<char>, c: char) -> nat
    decreases label.len(),
{
    if label.len() == 0 {
        0
    } else {
        smaller(label.drop_last(), c) + if label.last() < c {
            1nat
        } else {
            0nat
        }
    }
}

/// The number after that of the last character of a label that comes before a character and is not
/// ASCII.
pub open spec fn first_free(label: Seq<char>, c: char) -> int
    decreases label.len(),
{
    if label.len() == 0 {
        0x80
    } else {
        let free = first_free(label.drop_last(), c);
        if label.last() < c && label.last() as int >= free {
            label.last() as int + 1
        } else {
            free
        }
    }
}

/// How far the encoding of a label counts in one step to get to a character: over the numbers that
/// no character has, once for each character so far and the end.
pub open spec fn count_to(label: Seq<char>, c: char) -> int {
    (c as int - first_free(label, c)) * (smaller(label, c) + 1)
}

/// Whether the encoding of a label ends well. It counts in 32 bits, and fails if a step leads out of
/// them, but adds up to two for each character without a test.
pub open spec fn label_encodable(label: Seq<char>) -> bool {
    forall|i: int|
        0 <= i < label.len() ==> (#[trigger] label[i]) <= '\u{7f}' || count_to(label, label[i])
            > u32::MAX || count_to(label, label[i]) + 2 * label.len() <= u32::MAX
}

/// Whether all labels of a domain can be encoded.
pub open spec fn labels_encodable(domain: Seq<char>) -> bool
    decreases domain.len(),
{
    let length = run_length(domain, CharClass::Label) as int;
    &&& label_encodable(domain.take(length))
    &&& length < domain.len() ==> labels_encodable(domain.skip(length + 1))
}

/// Whether a host can be encoded. An address in brackets is not encoded, nor is what is mapped to
/// ASCII characters.
pub open spec fn host_encodable(host: Seq<char>) -> bool {
    ||| host.len() > 0 && host[0] == '['
    ||| is_plain(host)
    ||| {
        &&& percent_decoded(host).len() <= MAX_DOMAIN
        &&& labels_encodable(mapped_domain(percent_decoded(host)))
    }
}

/// Whether a text can be read as a URL, alone or by the scheme of the URL that it is joined to.
pub open spec fn url_readable(text: Seq<char>, base: Option<Seq<char>>) -> bool {
    &&& text.len() <= MAX_URL_LENGTH
    &&& host_in(significant(text), base) matches Some(host) ==> host_encodable(host)
}

/// Whether the path of a URL ends in a drive letter.
pub open spec fn ends_in_drive(path: Seq<char>) -> bool {
    let n = path.len() as int;
    &&& n >= 3
    &&& path[n - 3] == '/'
    &&& is_letter(path[n - 2])
    &&& path[n - 1] == ':' || path[n - 1] == '|'
}

/// Whether what counts in a text is the name of a file beside another one: it has no scheme but that
/// of files, and starts with no drive letter and no separator.
pub open spec fn is_file_name(text: Seq<char>) -> bool {
    let rest = after_scheme(text);
    &&& has_scheme(text) ==> spells(scheme_name(text), "file"@)
    &&& rest.len() > 0
    &&& CharClass::Host.has(rest[0])
    &&& !{
        &&& rest.len() >= 3
        &&& is_letter(rest[0])
        &&& rest[1] == ':' || rest[1] == '|'
        &&& !CharClass::Host.has(rest[2])
    }
}

/// Whether a text can be joined to a URL with the given scheme and path. There is nothing beside a
/// drive.
pub open spec fn url_joinable(scheme: Seq<char>, path: Seq<char>, text: Seq<char>) -> bool {
    &&& url_readable(text, Some(scheme))
    &&& !(spells(scheme, "file"@) && ends_in_drive(path) && is_file_name(significant(text)))
}

/// `String::push` appends a character.
pub assume_specification[ String::push ](text: &mut String, c: char)
    ensures
        final(text)@ == old(text)@.push(c),
;

/// Calls `url::percent_encoding::percent_decode` and, on what it returns, `decode_utf8_lossy`: the
/// result depends on the text alone.
#[verifier::external_body]
fn decode_percent(text: &str) -> (decoded: String)
    ensures
        decoded@ == percent_decoded(text@),
{
    percent_decode(text.as_bytes()).decode_utf8_lossy().into_owned()
}

/// Calls `url::idna::domain_to_unicode` for the domain that it returns, which depends on its
/// argument alone.
#[verifier::external_body]
fn map_domain(domain: &str) -> (mapped: String)
    requires
        domain@.len() <= MAX_DOMAIN,
    ensures
        mapped@ == mapped_domain(domain@),
{
    domain_to_unicode(domain).0
}

fn letter(c: char) -> (l: bool)
    ensures
        l == is_letter(c),
{
    ('a' <= c && c <= 'z') || ('A' <= c && c <= 'Z')
}

/// How many characters from a position on are in a class.
fn scan_from(text: &Vec<char>, from: usize, class: CharClass) -> (length: usize)
    requires
        from <= text@.len(),
    ensures
        length == run_length(text@.skip(from as int), class),
        from + length <= text@.len(),
{
    let mut i: usize = from;
    while i < text.len() && class.contains(text[i])
        invariant
            from <= i <= text@.len(),
            run_length(text@.skip(from as int), class) == i - from + run_length(
                text@.skip(i as int),
                class,
            ),
        ensures
            from <= i <= text@.len(),
            run_length(text@.skip(from as int), class) == i - from,
        decreases text.len() - i,
    {
        assert(text@.skip(i as int).skip(1) =~= text@.skip(i + 1));
        i = i + 1;
    }
    i - from
}

/// How many characters at the start of a text are in a class.
fn scan(text: &Vec<char>, class: CharClass) -> (length: usize)
    ensures
        length == run_length(text@, class),
        length <= text@.len(),
{
    assert(text@.skip(0) =~= text@);
    scan_from(text, 0, class)
}

/// The characters of a text from one position to another.
fn part(text: &Vec<char>, from: usize, to: usize) -> (chars: Vec<char>)
    requires
        from <= to <= text@.len(),
    ensures
        chars@ == text@.subrange(from as int, to as int),
{
    let mut chars: Vec<char> = Vec::new();
    let mut i: usize = from;
    while i < to
        invariant
            from <= i <= to <= text@.len(),
            chars@ == text@.subrange(from as int, i as int),
        decreases to - i,
    {
        chars.push(text[i]);
        i = i + 1;
    }
    chars
}

/// The characters of a text.
fn chars_of(text: &str) -> (chars: Vec<char>)
    ensures
        chars@ == text@,
{
    broadcast use vstd::string::axiom_spec_iter;

    let mut chars: Vec<char> = Vec::new();
    for c in iter: text.chars()
        invariant
            iter.seq() == text@,
            chars@ == text@.take(iter.index()),
    {
        chars.push(c);
    }
    assert(text@.take(text@.len() as int) =~= text@);
    chars
}

/// The text of characters.
fn text_of(chars: &Vec<char>) -> (text: String)
    ensures
        text@ == chars@,
{
    let mut text = String::new();
    let mut i: usize = 0;
    while i < chars.len()
        invariant
            i <= chars@.len(),
            text@ == chars@.take(i as int),
        decreases chars.len() - i,
    {
        text.push(chars[i]);
        i = i + 1;
        assert(text@ =~= chars@.take(i as int));
    }
    assert(chars@.take(i as int) =~= chars@);
    text
}

/// The characters of a text that are not tabs or line ends.
fn counting_chars(text: &str) -> (chars: Vec<char>)
    ensures
        chars@ == text@.filter(counts()),
{
    broadcast use vstd::string::axiom_spec_iter;

    let mut chars: Vec<char> = Vec::new();
    assert(text@.take(0).filter(counts()) =~= Seq::<char>::empty()) by {
        reveal(Seq::filter);
    }
    for c in iter: text.chars()
        invariant
            iter.seq() == text@,
            chars@ == text@.take(iter.index()).filter(counts()),
    {
        proof {
            reveal(Seq::filter);
            let i = iter.index();
            assert(text@.take(i + 1).drop_last() =~= text@.take(i));
            assert(text@.take(i + 1).last() == c);
        }
        if c != '\t' && c != '\n' && c != '\r' {
            chars.push(c);
        }
    }
    assert(text@.take(text@.len() as int) =~= text@);
    chars
}

/// What counts in the text of a URL.
fn significant_chars(text: &str) -> (chars: Vec<char>)
    ensures
        chars@ == significant(text@),
{
    let counting = counting_chars(text);
    let blanks: usize = scan(&counting, CharClass::Blank);
    let mut chars = part(&counting, blanks, counting.len());
    assert(chars@ =~= counting@.skip(blanks as int));
    let ghost untrimmed = chars@;
    while chars.len() > 0 && CharClass::Blank.contains(chars[chars.len() - 1])
        invariant
            trim_end(untrimmed, CharClass::Blank) == trim_end(chars@, CharClass::Blank),
        ensures
            chars@ == trim_end(untrimmed, CharClass::Blank),
        decreases chars.len(),
    {
        let ghost before = chars@;
        chars.pop();
        assert(chars@ =~= before.drop_last());
    }
    chars
}

/// The number of a character.
fn code_of(c: char) -> (code: u32)
    ensures
        code == c as int,
        code <= 0x10ffff,
{
    c as u32
}

/// Whether a name is a word in small letters, or differs from it in capitals only.
fn is_spelled(name: &Vec<char>, word: &str) -> (spelled: bool)
    ensures
        spelled == spells(name@, word@),
{
    let chars = chars_of(word);
    if name.len() != chars.len() {
        return false;
    }
    let mut i: usize = 0;
    while i < name.len()
        invariant
            i <= name@.len() == chars@.len(),
            chars@ == word@,
            forall|j: int|
                0 <= j < i ==> (#[trigger] name@[j] == word@[j] || 'A' <= name@[j] <= 'Z'
                    && name@[j] as int + 32 == word@[j] as int),
        decreases name.len() - i,
    {
        let c = name[i];
        let w = chars[i];
        if c != w && !('A' <= c && c <= 'Z' && code_of(c) + 32 == code_of(w)) {
            return false;
        }
        i = i + 1;
    }
    true
}

/// How the rest of a URL is read, by its scheme.
fn kind_of(name: &Vec<char>) -> (kind: SchemeKind)
    ensures
        kind == scheme_kind(name@),
{
    if is_spelled(name, "file") {
        SchemeKind::File
    } else if is_spelled(name, "http") || is_spelled(name, "https") || is_spelled(name, "ws")
        || is_spelled(name, "wss") || is_spelled(name, "ftp") || is_spelled(name, "gopher") {
        SchemeKind::Server
    } else {
        SchemeKind::Opaque
    }
}

/// How long the name of the scheme is, if the text starts with one.
fn scheme_length(text: &Vec<char>) -> (length: Option<usize>)
    ensures
        length is Some == has_scheme(text@),
        length matches Some(n) ==> n == run_length(text@, CharClass::Scheme) && n < text@.len(),
{
    let name: usize = scan(text, CharClass::Scheme);
    if text.len() > 0 && letter(text[0]) && name < text.len() && text[name] == ':' {
        Some(name)
    } else {
        None
    }
}

/// What follows the scheme of a text.
fn rest_of(text: &Vec<char>, scheme: Option<usize>) -> (rest: Vec<char>)
    requires
        scheme is Some == has_scheme(text@),
        scheme matches Some(n) ==> n == run_length(text@, CharClass::Scheme) && n < text@.len(),
    ensures
        rest@ == after_scheme(text@),
{
    let end: usize = text.len();
    let from: usize = match scheme {
        Some(name) => name + 1,
        None => 0,
    };
    let rest = part(text, from, end);
    assert(rest@ =~= after_scheme(text@));
    rest
}

/// A text up to where a host in it ends, after some characters.
fn host_after(text: &Vec<char>, skipped: usize) -> (host: Vec<char>)
    requires
        skipped <= text@.len(),
    ensures
        host@ == up_to_end(text@.skip(skipped as int)),
{
    let tail = part(text, skipped, text.len());
    assert(tail@ =~= text@.skip(skipped as int));
    let end: usize = scan(&tail, CharClass::Host);
    let host = part(&tail, 0, end);
    assert(host@ =~= tail@.take(end as int));
    host
}

proof fn lemma_after_user(text: Seq<char>, from: int)
    requires
        0 <= from <= text.len(),
        from > 0 ==> text[from - 1] == '@',
        forall|i: int| from <= i < text.len() ==> #[trigger] text[i] != '@',
    ensures
        after_user(text) == text.skip(from),
    decreases text.len(),
{
    if from < text.len() {
        lemma_after_user(text.drop_last(), from);
        assert(text.skip(from) =~= text.drop_last().skip(from).push(text.last()));
    } else {
        assert(text.skip(from) =~= Seq::<char>::empty());
    }
}

/// The domain of a server with a user and a port.
fn find_domain(authority: &Vec<char>) -> (domain: Vec<char>)
    ensures
        domain@ == domain_of(authority@),
{
    let mut from: usize = authority.len();
    while from > 0 && authority[from - 1] != '@'
        invariant
            from <= authority@.len(),
            forall|i: int| from <= i < authority@.len() ==> #[trigger] authority@[i] != '@',
        ensures
            from <= authority@.len(),
            from > 0 ==> authority@[from - 1] == '@',
            forall|i: int| from <= i < authority@.len() ==> #[trigger] authority@[i] != '@',
        decreases from,
    {
        from = from - 1;
    }
    let server = part(authority, from, authority.len());
    proof {
        lemma_after_user(authority@, from as int);
        assert(server@ =~= authority@.skip(from as int));
        assert(server@.skip(0) =~= server@);
    }
    let mut bracketed: bool = false;
    let mut end: usize = 0;
    while end < server.len() && (bracketed || server[end] != ':')
        invariant
            end <= server@.len(),
            colon_position(server@, false) == end + colon_position(
                server@.skip(end as int),
                bracketed,
            ),
        ensures
            end <= server@.len(),
            colon_position(server@, false) == end,
        decreases server.len() - end,
    {
        let c = server[end];
        assert(server@.skip(end as int).skip(1) =~= server@.skip(end + 1));
        bracketed = c == '[' || (bracketed && c != ']');
        end = end + 1;
    }
    let domain = part(&server, 0, end);
    assert(domain@ =~= server@.take(end as int));
    domain
}

/// The view of a scheme that may be there.
pub open spec fn scheme_view(scheme: Option<&str>) -> Option<Seq<char>> {
    match scheme {
        Some(name) => Some(name@),
        None => None,
    }
}

/// The host to encode in what counts in a text, by the scheme of the URL that it is joined to.
fn find_host(text: &Vec<char>, base: Option<&str>) -> (host: Option<Vec<char>>)
    ensures
        match host {
            Some(h) => host_in(text@, scheme_view(base)) == Some(h@),
            None => host_in(text@, scheme_view(base)) is None,
        },
{
    let own = scheme_length(text);
    let name = match (own, base) {
        (Some(length), _) => {
            let name = part(text, 0, length);
            assert(name@ =~= scheme_name(text@));
            name
        },
        (None, Some(base)) => chars_of(base),
        (None, None) => return None,
    };
    let rest = rest_of(text, own);
    let slashes: usize = scan(&rest, CharClass::Slash);
    match kind_of(&name) {
        SchemeKind::File => if slashes >= 2 {
            Some(host_after(&rest, 2))
        } else {
            None
        },
        SchemeKind::Server => {
            let same = match base {
                Some(base) => is_spelled(&name, base),
                None => false,
            };
            if slashes < 2 && same {
                None
            } else {
                Some(find_domain(&host_after(&rest, slashes)))
            }
        },
        SchemeKind::Opaque => None,
    }
}

/// Whether a host is mapped to ASCII characters: it has no others, and nothing to decode.
fn is_host_plain(host: &Vec<char>) -> (plain: bool)
    ensures
        plain == is_plain(host@),
{
    let mut i: usize = 0;
    while i < host.len()
        invariant
            i <= host@.len(),
            forall|j: int|
                0 <= j < i ==> (#[trigger] host@[j]) <= '\u{7f}' && host@[j] != '%' && !encoded_at(
                    host@,
                    j,
                ),
        decreases host.len() - i,
    {
        if host[i] > '\u{7f}' || host[i] == '%' {
            return false;
        }
        if (i == 0 || host[i - 1] == '.') && host.len() - i >= 4 && (host[i] == 'x' || host[i]
            == 'X') && (host[i + 1] == 'n' || host[i + 1] == 'N') && host[i + 2] == '-' && host[i
            + 3] == '-' {
            assert(encoded_at(host@, i as int));
            return false;
        }
        i = i + 1;
    }
    true
}

proof fn lemma_counts_bounded(label: Seq<char>, c: char)
    ensures
        smaller(label, c) <= label.len(),
        label.contains(c) ==> smaller(label, c) < label.len(),
        0x80 <= first_free(label, c),
        first_free(label, c) <= c as int || first_free(label, c) == 0x80,
    decreases label.len(),
{
    if label.len() > 0 {
        let rest = label.drop_last();
        lemma_counts_bounded(rest, c);
        if label.contains(c) && label.last() != c {
            let i = choose|i: int| 0 <= i < label.len() && label[i] == c;
            assert(rest[i] == c);
        }
    }
}

/// A label that is short for its characters can be encoded.
proof fn lemma_short_label(label: Seq<char>, c: char)
    requires
        label.contains(c),
        c as int >= 0x80,
        c as int * label.len() <= u32::MAX,
    ensures
        count_to(label, c) + 2 * label.len() <= u32::MAX,
{
    lemma_counts_bounded(label, c);
    let n = label.len() as int;
    let code = c as int;
    let gap = code - first_free(label, c);
    let times = smaller(label, c) as int + 1;
    assert(gap * times + 2 * n <= code * n) by (nonlinear_arith)
        requires
            0 <= gap <= code - 0x80,
            1 <= times <= n,
    ;
}

proof fn lemma_last_code(c: char)
    ensures
        0 <= c as int <= 0x10ffff,
{
}

/// The encoding of a label of up to 3855 characters always ends well.
pub proof fn law_short_labels_encodable(label: Seq<char>)
    requires
        label.len() <= 3855,
    ensures
        label_encodable(label),
{
    assert forall|i: int| 0 <= i < label.len() && #[trigger] label[i] > '\u{7f}' implies count_to(
        label,
        label[i],
    ) + 2 * label.len() <= u32::MAX by {
        let code = label[i] as int;
        let n = label.len() as int;
        lemma_last_code(label[i]);
        assert(code * n <= u32::MAX) by (nonlinear_arith)
            requires
                0 <= code <= 0x10ffff,
                0 <= n <= 3855,
        ;
        lemma_short_label(label, label[i]);
    }
}

/// How far the encoding of a label counts in one step to get to a character.
fn find_count(label: &Vec<char>, c: char) -> (count: u128)
    requires
        c as int >= 0x80,
    ensures
        count == count_to(label@, c),
        count <= 0x10ffff * (label@.len() + 1),
{
    let mut before: u64 = 0;
    let mut free: u32 = 0x80;
    let mut i: usize = 0;
    let length: usize = label.len();
    while i < length
        invariant
            i <= length == label@.len(),
            before <= i,
            before == smaller(label@.take(i as int), c),
            free == first_free(label@.take(i as int), c),
        decreases length - i,
    {
        let other = label[i];
        proof {
            assert(label@.take(i + 1).drop_last() =~= label@.take(i as int));
            assert(label@.take(i + 1).last() == other);
        }
        if other < c {
            before = before + 1;
            if code_of(other) >= free {
                free = code_of(other) + 1;
            }
        }
        i = i + 1;
    }
    proof {
        assert(label@.take(i as int) =~= label@);
        lemma_counts_bounded(label@, c);
    }
    let gap: u128 = (code_of(c) - free) as u128;
    let times: u128 = before as u128 + 1;
    proof {
        let n = label@.len() as int;
        assert(gap * times <= 0x10ffff * (n + 1)) by (nonlinear_arith)
            requires
                0 <= gap <= 0x10ffff,
                0 <= times <= n + 1,
        ;
    }
    gap * times
}

/// Whether the encoding of a label ends well.
fn is_label_encodable(label: &Vec<char>) -> (encodable: bool)
    ensures
        encodable == label_encodable(label@),
{
    let length: u128 = label.len() as u128;
    let mut i: usize = 0;
    while i < label.len()
        invariant
            i <= label@.len(),
            length == label@.len(),
            length <= u64::MAX,
            forall|j: int|
                0 <= j < i ==> (#[trigger] label@[j]) <= '\u{7f}' || count_to(label@, label@[j])
                    > u32::MAX || count_to(label@, label@[j]) + 2 * label@.len() <= u32::MAX,
        decreases label.len() - i,
    {
        let c = label[i];
        if c > '\u{7f}' {
            let code: u128 = code_of(c) as u128;
            assert(code * length <= 0x10ffff * u64::MAX) by (nonlinear_arith)
                requires
                    code <= 0x10ffff,
                    length <= u64::MAX,
            ;
            if i > 0 && label[i - 1] == c {
                // The character was looked at already.
            } else if code * length > u32::MAX as u128 {
                let count: u128 = find_count(label, c);
                if count <= u32::MAX as u128 && count + 2 * length > u32::MAX as u128 {
                    return false;
                }
            } else {
                proof {
                    lemma_short_label(label@, c);
                }
            }
        }
        i = i + 1;
    }
    true
}

/// Whether all labels of a domain can be encoded.
fn are_labels_encodable(domain: &Vec<char>) -> (encodable: bool)
    ensures
        encodable == labels_encodable(domain@),
{
    let mut from: usize = 0;
    assert(domain@.skip(0) =~= domain@);
    loop
        invariant
            from <= domain@.len(),
            labels_encodable(domain@) == labels_encodable(domain@.skip(from as int)),
        decreases domain.len() - from,
    {
        let length: usize = scan_from(domain, from, CharClass::Label);
        let label = part(domain, from, from + length);
        assert(label@ =~= domain@.skip(from as int).take(length as int));
        if !is_label_encodable(&label) {
            return false;
        }
        if length == domain.len() - from {
            return true;
        }
        assert(domain@.skip(from as int).skip(length + 1) =~= domain@.skip(from + length + 1));
        from = from + length + 1;
    }
}

/// Whether a host can be encoded.
fn is_host_encodable(host: &Vec<char>) -> (encodable: bool)
    ensures
        encodable == host_encodable(host@),
{
    if (host.len() > 0 && host[0] == '[') || is_host_plain(host) {
        return true;
    }
    let domain = decode_percent(text_of(host).as_str());
    if domain.as_str().unicode_len() > MAX_DOMAIN {
        return false;
    }
    let mapped = map_domain(domain.as_str());
    are_labels_encodable(&chars_of(mapped.as_str()))
}

/// Whether a text can be read as a URL, alone or by the scheme of the URL that it is joined to.
pub fn is_url_readable(text: &str, base: Option<&str>) -> (readable: bool)
    ensures
        readable == url_readable(text@, scheme_view(base)),
{
    if text.unicode_len() > MAX_URL_LENGTH {
        return false;
    }
    match find_host(&significant_chars(text), base) {
        Some(host) => is_host_encodable(&host),
        None => true,
    }
}

/// Whether what counts in a text is the name of a file beside another one.
fn names_file(text: &Vec<char>) -> (named: bool)
    ensures
        named == is_file_name(text@),
{
    let scheme = scheme_length(text);
    if let Some(length) = scheme {
        let name = part(text, 0, length);
        assert(name@ =~= scheme_name(text@));
        if !is_spelled(&name, "file") {
            return false;
        }
    }
    let rest = rest_of(text, scheme);
    rest.len() > 0 && CharClass::Host.contains(rest[0]) && !(rest.len() >= 3 && letter(rest[0])
        && (rest[1] == ':' || rest[1] == '|') && !CharClass::Host.contains(rest[2]))
}

/// Whether the path of a URL ends in a drive letter.
fn is_drive(path: &str) -> (drive: bool)
    ensures
        drive == ends_in_drive(path@),
{
    let chars = chars_of(path);
    let n: usize = chars.len();
    n >= 3 && chars[n - 3] == '/' && letter(chars[n - 2]) && (chars[n - 1] == ':' || chars[n - 1]
        == '|')
}

/// Whether a text can be joined to a URL with the given scheme and path.
pub fn is_url_joinable(scheme: &str, path: &str, text: &str) -> (joinable: bool)
    ensures
        joinable == url_joinable(scheme@, path@, text@),
{
    if !is_url_readable(text, Some(scheme)) {
        return false;
    }
    !(is_spelled(&chars_of(scheme), "file") && is_drive(path) && names_file(
        &significant_chars(text),
    ))
}

/// Whether all characters of a text are ASCII, but neither percent signs nor hyphens.
pub open spec fn needs_no_encoding(text: Seq<char>) -> bool {
    forall|i: int|
        0 <= i < text.len() ==> (#[trigger] text[i]) <= '\u{7f}' && text[i] != '%' && text[i]
            != '-'
}

proof fn lemma_run_bounded(text: Seq<char>, class: CharClass)
    ensures
        run_length(text, class) <= text.len(),
    decreases text.len(),
{
    if text.len() > 0 && class.has(text[0]) {
        lemma_run_bounded(text.skip(1), class);
    }
}

proof fn lemma_parts_need_none(text: Seq<char>)
    requires
        needs_no_encoding(text),
    ensures
        needs_no_encoding(text.filter(counts())),
        needs_no_encoding(trim_end(text, CharClass::Blank)),
        needs_no_encoding(after_user(text)),
    decreases text.len(),
{
    reveal(Seq::filter);
    if text.len() > 0 {
        let rest = text.drop_last();
        assert(needs_no_encoding(rest)) by {
            assert forall|i: int| 0 <= i < rest.len() implies (#[trigger] rest[i]) <= '\u{7f}'
                && rest[i] != '%' && rest[i] != '-' by {
                assert(text[i] == rest[i]);
            }
        }
        lemma_parts_need_none(rest);
        assert(text[text.len() - 1] == text.last());
    }
}

proof fn lemma_section_needs_none(text: Seq<char>, from: int, to: int)
    requires
        needs_no_encoding(text),
        0 <= from <= to <= text.len(),
    ensures
        needs_no_encoding(text.subrange(from, to)),
{
    let part = text.subrange(from, to);
    assert forall|i: int| 0 <= i < part.len() implies (#[trigger] part[i]) <= '\u{7f}' && part[i]
        != '%' && part[i] != '-' by {
        assert(text[from + i] == part[i]);
    }
}

proof fn lemma_colon_bounded(text: Seq<char>, bracketed: bool)
    ensures
        colon_position(text, bracketed) <= text.len(),
    decreases text.len(),
{
    if text.len() > 0 && !(text[0] == ':' && !bracketed) {
        lemma_colon_bounded(text.skip(1), text[0] == '[' || bracketed && text[0] != ']');
    }
}

/// A text of ASCII characters without percent signs and hyphens can always be read, however long its
/// host is, up to the limit on the text.
pub proof fn law_plain_texts_read(text: Seq<char>, base: Option<Seq<char>>)
    requires
        needs_no_encoding(text),
        text.len() <= 0x7fff_ffff,
    ensures
        url_readable(text, base),
{
    lemma_parts_need_none(text);
    let counting = text.filter(counts());
    let n = counting.len() as int;
    lemma_run_bounded(counting, CharClass::Blank);
    let blanks = run_length(counting, CharClass::Blank) as int;
    lemma_section_needs_none(counting, blanks, n);
    assert(counting.skip(blanks) =~= counting.subrange(blanks, n));
    lemma_parts_need_none(counting.skip(blanks));
    let s = significant(text);
    assert(needs_no_encoding(s));
    lemma_run_bounded(s, CharClass::Scheme);
    let rest = after_scheme(s);
    let name = run_length(s, CharClass::Scheme) as int;
    if has_scheme(s) {
        lemma_section_needs_none(s, name + 1, s.len() as int);
        assert(rest =~= s.subrange(name + 1, s.len() as int));
    }
    assert(needs_no_encoding(rest));
    lemma_run_bounded(rest, CharClass::Slash);
    if let Some(host) = host_in(s, base) {
        let slashes = run_length(rest, CharClass::Slash) as int;
        let from = if scheme_kind(
            if has_scheme(s) {
                scheme_name(s)
            } else {
                base.unwrap()
            },
        ) is File {
            2
        } else {
            slashes
        };
        let tail = rest.skip(from);
        lemma_section_needs_none(rest, from, rest.len() as int);
        assert(tail =~= rest.subrange(from, rest.len() as int));
        lemma_run_bounded(tail, CharClass::Host);
        let end = run_length(tail, CharClass::Host) as int;
        lemma_section_needs_none(tail, 0, end);
        let authority = up_to_end(tail);
        assert(authority =~= tail.subrange(0, end));
        lemma_parts_need_none(authority);
        let server = after_user(authority);
        lemma_colon_bounded(server, false);
        lemma_section_needs_none(server, 0, colon_position(server, false) as int);
        assert(domain_of(authority) =~= server.subrange(0, colon_position(server, false) as int));
        assert(needs_no_encoding(host));
        assert(is_plain(host));
    }
}

/// Whether a text is read or joined is tested exactly.
pub proof fn law_tests_exact(
    text: &str,
    base: Option<&str>,
    scheme: &str,
    path: &str,
    readable: bool,
    joinable: bool,
)
    requires
        call_ensures(is_url_readable, (text, base), readable),
        call_ensures(is_url_joinable, (scheme, path, text), joinable),
    ensures
        readable <==> url_readable(
            text@,
            match base {
                Some(name) => Some(name@),
                None => None,
            },
        ),
        joinable <==> url_joinable(scheme@, path@, text@),
{
}

/// A text can be joined to any URL but one of a drive if it can be read by the scheme of that.
pub proof fn law_joinable_unless_drive(scheme: Seq<char>, path: Seq<char>, text: Seq<char>)
    requires
        path.len() < 3 || path.last() != ':' && path.last() != '|' || path[path.len() - 3] != '/',
    ensures
        url_joinable(scheme, path, text) <==> url_readable(text, Some(scheme)),
{
}

/// A label is encoded without counting out of 32 bits unnoticed: from any number that no character of
/// the label has, up to the next one, the step is either noticed to be too far, or leaves room to
/// count every character twice.
pub proof fn law_count_noticed(label: Seq<char>, i: int)
    requires
        label_encodable(label),
        0 <= i < label.len(),
        label[i] > '\u{7f}',
    ensures
        ({
            let count = (label[i] as int - first_free(label, label[i])) * (smaller(
                label,
                label[i],
            ) + 1);
            count > 0xffff_ffff || count + 2 * label.len() <= 0xffff_ffff
        }),
{
}

/// The characters before a character are counted, and the number after the last of them that is not
/// ASCII is found.
pub proof fn law_label_counted(label: Seq<char>, c: char, other: char)
    ensures
        smaller(Seq::empty(), c) == 0,
        smaller(label.push(other), c) == smaller(label, c) + if other < c {
            1int
        } else {
            0
        },
        first_free(label, c) >= 0x80,
        forall|i: int|
            0 <= i < label.len() && (#[trigger] label[i]) < c && label[i] as int >= 0x80
                ==> label[i] as int + 1 <= first_free(label, c),
        first_free(label, c) == 0x80 || exists|i: int|
            0 <= i < label.len() && (#[trigger] label[i]) < c && label[i] as int + 1
                == first_free(label, c),
    decreases label.len(),
{
    assert(label.push(other).drop_last() =~= label);
    if label.len() > 0 {
        let rest = label.drop_last();
        law_label_counted(rest, c, other);
        assert forall|i: int|
            0 <= i < label.len() && (#[trigger] label[i]) < c && label[i] as int >= 0x80 implies label[i] as int
            + 1 <= first_free(label, c) by {
            if i < rest.len() {
                assert(rest[i] == label[i]);
            }
        }
        if first_free(label, c) != 0x80 {
            if label.last() < c && label.last() as int >= first_free(rest, c) {
                assert(label[label.len() - 1] < c);
            } else {
                let i = choose|i: int|
                    0 <= i < rest.len() && (#[trigger] rest[i]) < c && rest[i] as int + 1
                        == first_free(rest, c);
                assert(label[i] == rest[i]);
            }
        }
    }
}

/// A host is refused only where a label of it cannot be counted, or where its decoded text has more
/// characters than can be mapped.
pub proof fn law_hosts_encodable(host: Seq<char>)
    ensures
        host.len() > 0 && host[0] == '[' ==> host_encodable(host),
        percent_decoded(host).len() <= 238_609_293 && labels_encodable(
            mapped_domain(percent_decoded(host)),
        ) ==> host_encodable(host),
{
}

/// The labels of a domain are what stands between its dots, and all of them have to be encodable.
pub proof fn law_labels_between_dots(label: Seq<char>, rest: Seq<char>)
    requires
        forall|i: int| 0 <= i < label.len() ==> (#[trigger] label[i]) != '.',
    ensures
        labels_encodable(label) <==> label_encodable(label),
        labels_encodable(label + seq!['.'] + rest) <==> label_encodable(label) && labels_encodable(
            rest,
        ),
{
    lemma_run_of(label, Seq::empty());
    assert(label + Seq::<char>::empty() =~= label);
    assert(label.take(label.len() as int) =~= label);
    let domain = label + seq!['.'] + rest;
    assert(domain =~= label + (seq!['.'] + rest));
    lemma_run_of(label, seq!['.'] + rest);
    assert(domain.take(label.len() as int) =~= label);
    assert(domain.skip(label.len() as int + 1) =~= rest);
}

proof fn lemma_run_of(label: Seq<char>, rest: Seq<char>)
    requires
        forall|i: int| 0 <= i < label.len() ==> (#[trigger] label[i]) != '.',
        rest.len() > 0 ==> rest[0] == '.',
    ensures
        run_length(label + rest, CharClass::Label) == label.len(),
    decreases label.len(),
{
    if label.len() > 0 {
        let tail = label.skip(1);
        assert forall|i: int| 0 <= i < tail.len() implies (#[trigger] tail[i]) != '.' by {
            assert(label[i + 1] == tail[i]);
        }
        lemma_run_of(tail, rest);
        assert((label + rest).skip(1) =~= tail + rest);
        assert((label + rest)[0] == label[0]);
    }
}

} // verus!
