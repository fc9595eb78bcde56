//! The OAuth redirect: the browser comes back to the local listener with a
//! request line such as `GET /?code=abc&scope=...&state=xyz HTTP/1.1`. The
//! code is taken from it only when the returned state is the one we sent.

use vstd::prelude::*;
use crate::text::{first_index_of, split_once, lemma_first_index_bounds, find_char, sub_chars,
    same_chars, string_of, chars_of};

verus! {

/// The Unicode `White_Space` class, which `char::is_whitespace` (and thus
/// `str::split_whitespace`) uses.
pub open spec fn is_white_space(c: char) -> bool {
    ||| (9 <= c as u32 <= 13)
    ||| c as u32 == 0x20
    ||| c as u32 == 0x85
    ||| c as u32 == 0xa0
    ||| c as u32 == 0x1680
    ||| (0x2000 <= c as u32 <= 0x200a)
    ||| c as u32 == 0x2028
    ||| c as u32 == 0x2029
    ||| c as u32 == 0x202f
    ||| c as u32 == 0x205f
    ||| c as u32 == 0x3000
}

/// Whether `c` is Unicode white space.
pub fn white_space(c: char) -> (r: bool)
    ensures
        r == is_white_space(c),
{
    let u = c as u32;
    (9 <= u && u <= 13) || u == 0x20 || u == 0x85 || u == 0xa0 || u == 0x1680
        || (0x2000 <= u && u <= 0x200a) || u == 0x2028 || u == 0x2029 || u == 0x202f
        || u == 0x205f || u == 0x3000
}

/// The first position at or after `i` that is not white space.
pub open spec fn white_space_end(s: Seq<char>, i: int) -> int
    decreases s.len() - i,
{
    if 0 <= i < s.len() && is_white_space(s[i]) {
        white_space_end(s, i + 1)
    } else {
        i
    }
}

/// The first position at or after `i` that is white space (or the end).
pub open spec fn word_end(s: Seq<char>, i: int) -> int
    decreases s.len() - i,
{
    if 0 <= i < s.len() && !is_white_space(s[i]) {
        word_end(s, i + 1)
    } else {
        i
    }
}

/// `s.split_whitespace().nth(1)`: the second white-space separated word.
pub open spec fn second_word(s: Seq<char>) -> Option<Seq<char>> {
    let a = white_space_end(s, 0);
    if a >= s.len() {
        None
    } else {
        let b = white_space_end(s, word_end(s, a));
        if b >= s.len() {
            None
        } else {
            Some(s.subrange(b, word_end(s, b)))
        }
    }
}

/// The parameter name that carries the authorization code.
pub open spec fn code_key() -> Seq<char> {
    seq!['c', 'o', 'd', 'e']
}

/// Every parameter whose name starts with this carries the state.
pub open spec fn state_key() -> Seq<char> {
    seq!['s', 't', 'a', 't', 'e']
}

/// Whether a parameter name designates the returned state.
pub open spec fn is_state_key(key: Seq<char>) -> bool {
    key.len() >= 5 && key.take(5) == state_key()
}

/// Reads the `&`-separated `name=value` parameters of `rest`, starting from
/// the code and state found so far. The last `code` and the last parameter
/// whose name starts with `state` win. `None` when a parameter has no `=`.
pub open spec fn scan_parameters(rest: Seq<char>, code: Seq<char>, state: Seq<char>) -> Option<
    (Seq<char>, Seq<char>),
>
    decreases rest.len(),
{
    let amp = first_index_of(rest, '&', 0);
    let piece = rest.take(amp);
    match split_once(piece, '=') {
        None => None,
        Some((key, value)) => {
            let code2 = if key == code_key() { value } else { code };
            let state2 = if key != code_key() && is_state_key(key) { value } else { state };
            if amp >= rest.len() || amp < 0 {
                Some((code2, state2))
            } else {
                scan_parameters(rest.skip(amp + 1), code2, state2)
            }
        },
    }
}

/// Why a redirect request did not yield an authorization code.
#[derive(PartialEq, Eq, Structural, Debug, Clone, Copy)]
pub enum RedirectError {
    /// The request line has no second word (the path).
    MalformedRequestLine,
    /// The path has no `?`.
    MissingQuery,
    /// A query parameter has no `=`.
    MalformedParameter,
    /// The returned state is not the one that was sent.
    StateMismatch,
}

/// What the redirect request line yields: the authorization code, or why not.
pub open spec fn redirect_outcome(line: Seq<char>, expected_state: Seq<char>) -> Result<
    Seq<char>,
    RedirectError,
> {
    match second_word(line) {
        None => Err(RedirectError::MalformedRequestLine),
        Some(path) => match split_once(path, '?') {
            None => Err(RedirectError::MissingQuery),
            Some((_, query)) => match scan_parameters(query, seq![], seq![]) {
                None => Err(RedirectError::MalformedParameter),
                Some((code, state)) => if state == expected_state {
                    Ok(code)
                } else {
                    Err(RedirectError::StateMismatch)
                },
            },
        },
    }
}

fn skip_white_space(s: &Vec<char>, from: usize) -> (i: usize)
    requires
        from <= s@.len(),
    ensures
        i == white_space_end(s@, from as int),
        from <= i <= s@.len(),
{
    let mut i = from;
    while i < s.len() && white_space(s[i])
        invariant
            from <= i <= s@.len(),
            white_space_end(s@, from as int) == white_space_end(s@, i as int),
        decreases s.len() - i,
    {
        i = i + 1;
    }
    i
}

fn skip_word(s: &Vec<char>, from: usize) -> (i: usize)
    requires
        from <= s@.len(),
    ensures
        i == word_end(s@, from as int),
        from <= i <= s@.len(),
{
    let mut i = from;
    while i < s.len() && !white_space(s[i])
        invariant
            from <= i <= s@.len(),
            word_end(s@, from as int) == word_end(s@, i as int),
        decreases s.len() - i,
    {
        i = i + 1;
    }
    i
}

fn second_word_of(s: &Vec<char>) -> (w: Option<Vec<char>>)
    ensures
        match w {
            Some(v) => second_word(s@) == Some(v@),
            None => second_word(s@) is None,
        },
{
    let a = skip_white_space(s, 0);
    if a >= s.len() {
        return None;
    }
    let e = skip_word(s, a);
    let b = skip_white_space(s, e);
    if b >= s.len() {
        return None;
    }
    let f = skip_word(s, b);
    Some(sub_chars(s, b, f))
}

fn split_once_at(s: &Vec<char>, c: char) -> (r: Option<(Vec<char>, Vec<char>)>)
    ensures
        match r {
            Some((a, b)) => split_once(s@, c) == Some((a@, b@)),
            None => split_once(s@, c) is None,
        },
{
    let i = find_char(s, c);
    proof {
        lemma_first_index_bounds(s@, c, 0);
    }
    if i < s.len() {
        let before = sub_chars(s, 0, i);
        let after = sub_chars(s, i + 1, s.len());
        assert(before@ =~= s@.take(i as int));
        assert(after@ =~= s@.skip(i + 1));
        Some((before, after))
    } else {
        None
    }
}

fn is_code_key(key: &Vec<char>) -> (r: bool)
    ensures
        r == (key@ == code_key()),
{
    let r = key.len() == 4 && key[0] == 'c' && key[1] == 'o' && key[2] == 'd' && key[3] == 'e';
    assert(r ==> key@ =~= code_key());
    r
}

fn starts_with_state(key: &Vec<char>) -> (r: bool)
    ensures
        r == is_state_key(key@),
{
    let r = key.len() >= 5 && key[0] == 's' && key[1] == 't' && key[2] == 'a' && key[3] == 't'
        && key[4] == 'e';
    assert(r ==> key@.take(5) =~= state_key());
    r
}

fn scan_query(query: Vec<char>) -> (r: Option<(Vec<char>, Vec<char>)>)
    ensures
        match r {
            Some((code, state)) => scan_parameters(query@, seq![], seq![]) == Some((code@, state@)),
            None => scan_parameters(query@, seq![], seq![]) is None,
        },
{
    let mut rest = query;
    let mut code: Vec<char> = Vec::new();
    let mut state: Vec<char> = Vec::new();
    loop
        invariant
            scan_parameters(query@, seq![], seq![]) == scan_parameters(rest@, code@, state@),
        decreases rest@.len(),
    {
        let amp = find_char(&rest, '&');
        proof {
            lemma_first_index_bounds(rest@, '&', 0);
        }
        let piece = sub_chars(&rest, 0, amp);
        assert(piece@ =~= rest@.take(amp as int));
        match split_once_at(&piece, '=') {
            None => {
                return None;
            },
            Some((key, value)) => {
                if is_code_key(&key) {
                    code = value;
                } else if starts_with_state(&key) {
                    state = value;
                }
                if amp >= rest.len() {
                    return Some((code, state));
                }
                let next = sub_chars(&rest, amp + 1, rest.len());
                assert(next@ =~= rest@.skip(amp + 1));
                rest = next;
            },
        }
    }
}

/// The authorization code carried by the redirect's request line, provided
/// the returned state is `expected_state`.
pub fn authorization_code_from_request(request_line: &str, expected_state: &str) -> (r: Result<
    String,
    RedirectError,
>)
    ensures
        match r {
            Ok(code) => redirect_outcome(request_line@, expected_state@) == Ok::<Seq<char>, RedirectError>(code@),
            Err(e) => redirect_outcome(request_line@, expected_state@) == Err::<Seq<char>, RedirectError>(e),
        },
{
    let line = chars_of(request_line);
    let path = match second_word_of(&line) {
        None => {
            return Err(RedirectError::MalformedRequestLine);
        },
        Some(p) => p,
    };
    let query = match split_once_at(&path, '?') {
        None => {
            return Err(RedirectError::MissingQuery);
        },
        Some((_, q)) => q,
    };
    match scan_query(query) {
        None => Err(RedirectError::MalformedParameter),
        Some((code, state)) => {
            let expected = chars_of(expected_state);
            if same_chars(&state, &expected) {
                Ok(string_of(&code))
            } else {
                Err(RedirectError::StateMismatch)
            }
        },
    }
}

/// No `&` and no white space: a value that travels in a query parameter.
pub open spec fn is_plain_value(v: Seq<char>) -> bool {
    forall|i: int| 0 <= i < v.len() ==> #[trigger] v[i] != '&' && !is_white_space(v[i])
}

/// The request line of a redirect carrying `code`, the granted `scope` and
/// the returned `state`.
pub open spec fn redirect_request_line(code: Seq<char>, scope: Seq<char>, state: Seq<char>) -> Seq<
    char,
> {
    "GET /?code="@ + code + "&scope="@ + scope + "&state="@ + state + " HTTP/1.1"@
}

proof fn lemma_white_space_end_at(s: Seq<char>, i: int, j: int)
    requires
        0 <= i <= j <= s.len(),
        forall|k: int| i <= k < j ==> is_white_space(#[trigger] s[k]),
        j < s.len() ==> !is_white_space(s[j]),
    ensures
        white_space_end(s, i) == j,
    decreases j - i,
{
    if i < j {
        lemma_white_space_end_at(s, i + 1, j);
    }
}

proof fn lemma_word_end_at(s: Seq<char>, i: int, j: int)
    requires
        0 <= i <= j <= s.len(),
        forall|k: int| i <= k < j ==> !is_white_space(#[trigger] s[k]),
        j < s.len() ==> is_white_space(s[j]),
    ensures
        word_end(s, i) == j,
    decreases j - i,
{
    if i < j {
        lemma_word_end_at(s, i + 1, j);
    }
}

proof fn lemma_first_index_at(s: Seq<char>, c: char, i: int, j: int)
    requires
        0 <= i <= j <= s.len(),
        forall|k: int| i <= k < j ==> #[trigger] s[k] != c,
        j < s.len() ==> s[j] == c,
    ensures
        first_index_of(s, c, i) == j,
    decreases j - i,
{
    if i < j {
        lemma_first_index_at(s, c, i + 1, j);
    }
}

/// Reading `key=value` parameters where the next `&` ends `value`.
proof fn lemma_scan_step(
    rest: Seq<char>,
    key: Seq<char>,
    value: Seq<char>,
    tail: Option<Seq<char>>,
    code: Seq<char>,
    state: Seq<char>,
)
    requires
        forall|k: int| 0 <= k < key.len() ==> #[trigger] key[k] != '&' && key[k] != '=',
        forall|k: int| 0 <= k < value.len() ==> #[trigger] value[k] != '&',
        rest == match tail {
            Some(t) => key + seq!['='] + value + seq!['&'] + t,
            None => key + seq!['='] + value,
        },
    ensures
        ({
            let code2 = if key == code_key() { value } else { code };
            let state2 = if key != code_key() && is_state_key(key) { value } else { state };
            scan_parameters(rest, code, state) == match tail {
                Some(t) => scan_parameters(t, code2, state2),
                None => Some((code2, state2)),
            }
        }),
{
    let amp: int = key.len() + 1 + value.len() as int;
    assert forall|k: int| 0 <= k < amp implies #[trigger] rest[k] != '&' by {
        if k < key.len() {
            assert(rest[k] == key[k]);
        } else if k > key.len() {
            assert(rest[k] == value[k - key.len() - 1]);
        }
    }
    lemma_first_index_at(rest, '&', 0, amp);
    let piece = rest.take(amp);
    assert(piece =~= key + seq!['='] + value);
    assert forall|k: int| 0 <= k < key.len() implies #[trigger] piece[k] != '=' by {
        assert(piece[k] == key[k]);
    }
    lemma_first_index_at(piece, '=', 0, key.len() as int);
    assert(piece.take(key.len() as int) =~= key);
    assert(piece.skip(key.len() as int + 1) =~= value);
    match tail {
        Some(t) => {
            assert(rest.skip(amp + 1) =~= t);
        },
        None => {},
    }
}

/// The redirect Twitch sends back yields its code when the returned state is
/// the one that was sent, and is refused otherwise.
pub proof fn law_redirect_yields_code(
    code: Seq<char>,
    scope: Seq<char>,
    state: Seq<char>,
    expected_state: Seq<char>,
)
    requires
        is_plain_value(code),
        is_plain_value(scope),
        is_plain_value(state),
    ensures
        redirect_outcome(redirect_request_line(code, scope, state), expected_state) == if state
            == expected_state {
            Ok::<Seq<char>, RedirectError>(code)
        } else {
            Err(RedirectError::StateMismatch)
        },
{
    reveal_strlit("GET /?code=");
    reveal_strlit("&scope=");
    reveal_strlit("&state=");
    reveal_strlit(" HTTP/1.1");
    let line = redirect_request_line(code, scope, state);
    assert("&scope="@ =~= seq!['&', 's', 'c', 'o', 'p', 'e', '=']);
    assert("&state="@ =~= seq!['&', 's', 't', 'a', 't', 'e', '=']);
    let after_scope = seq!['s', 't', 'a', 't', 'e', '='] + state;
    let after_code = seq!['s', 'c', 'o', 'p', 'e', '='] + scope + seq!['&'] + after_scope;
    let query = seq!['c', 'o', 'd', 'e', '='] + code + seq!['&'] + after_code;
    assert(query =~= seq!['c', 'o', 'd', 'e', '='] + code + "&scope="@ + scope + "&state="@ + state);
    let path = seq!['/', '?'] + query;
    assert(line =~= seq!['G', 'E', 'T', ' '] + path + " HTTP/1.1"@);
    let end: int = 4 + path.len() as int;
    assert(!is_white_space(line[0]));
    lemma_white_space_end_at(line, 0, 0);
    assert forall|k: int| 0 <= k < 3 implies !is_white_space(#[trigger] line[k]) by {}
    lemma_word_end_at(line, 0, 3);
    lemma_white_space_end_at(line, 3, 4);
    assert forall|k: int| 4 <= k < end implies !is_white_space(#[trigger] line[k]) by {
        assert(line[k] == path[k - 4]);
        let q = k - 6;
        if q >= 0 {
            assert(path[k - 4] == query[q]);
            if q < 5 {
            } else if q < 5 + code.len() {
                assert(query[q] == code[q - 5]);
            } else if q < 12 + code.len() {
            } else if q < 12 + code.len() + scope.len() {
                assert(query[q] == scope[q - 12 - code.len()]);
            } else if q < 19 + code.len() + scope.len() {
            } else {
                assert(query[q] == state[q - 19 - code.len() - scope.len()]);
            }
        }
    }
    assert(line[end] == ' ');
    lemma_word_end_at(line, 4, end);
    assert(line.subrange(4, end) =~= path);
    assert(second_word(line) == Some(path));
    assert(path[0] != '?');
    lemma_first_index_at(path, '?', 0, 1);
    assert(path.skip(2) =~= query);
    assert(split_once(path, '?') == Some((path.take(1), query)));
    assert(query =~= seq!['c', 'o', 'd', 'e'] + seq!['='] + code + seq!['&'] + after_code);
    lemma_scan_step(query, code_key(), code, Some(after_code), seq![], seq![]);
    let scope_key = seq!['s', 'c', 'o', 'p', 'e'];
    assert(after_code =~= scope_key + seq!['='] + scope + seq!['&'] + after_scope);
    assert(scope_key != code_key());
    assert(!is_state_key(scope_key));
    lemma_scan_step(after_code, scope_key, scope, Some(after_scope), code, seq![]);
    assert(after_scope =~= state_key() + seq!['='] + state);
    assert(state_key() != code_key());
    assert(state_key().take(5) =~= state_key());
    lemma_scan_step(after_scope, state_key(), state, None, code, seq![]);
}

} // verus!
