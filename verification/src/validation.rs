//! Validation of project and process names.
//!
//! A project name becomes a directory name and an identifier, a process name
//! an identifier shown in logs and listings; both are checked against the same
//! rules, in a fixed order, and the first rule that fails names the error.

use vstd::prelude::*;
use vstd::string::*;
use crate::text::{chars_of, decimal, push_char, push_decimal};

verus! {

/// Unicode `White_Space` characters (what `char::is_whitespace` accepts).
pub open spec fn is_unicode_whitespace(c: char) -> bool {
    let u = c as u32;
    ||| 0x09 <= u <= 0x0D
    ||| u == 0x20
    ||| u == 0x85
    ||| u == 0xA0
    ||| u == 0x1680
    ||| 0x2000 <= u <= 0x200A
    ||| u == 0x2028
    ||| u == 0x2029
    ||| u == 0x202F
    ||| u == 0x205F
    ||| u == 0x3000
}

/// Unicode control characters, general category `Cc`
/// (what `char::is_control` accepts).
pub open spec fn is_control_char(c: char) -> bool {
    let u = c as u32;
    u <= 0x1F || (0x7F <= u <= 0x9F)
}

/// Characters that names may not contain because file systems treat them
/// specially.
pub open spec fn is_forbidden_char(c: char) -> bool {
    c == ':' || c == '*' || c == '?' || c == '"' || c == '<' || c == '>' || c == '|' || c == '\0'
}

/// The first forbidden character of `s`, if there is one.
pub open spec fn first_forbidden(s: Seq<char>) -> Option<char>
    decreases s.len(),
{
    if s.len() == 0 {
        None
    } else if is_forbidden_char(s[0]) {
        Some(s[0])
    } else {
        first_forbidden(s.drop_first())
    }
}

/// `s` with ASCII lower-case letters turned to upper case. On the reserved
/// names below this agrees with full Unicode upper-casing: no other character
/// upper-cases to text made of the letters and digits they use.
pub open spec fn ascii_upper(s: Seq<char>) -> Seq<char> {
    s.map_values(|c: char| if 'a' <= c <= 'z' { ((c as u32) - 32) as char } else { c })
}

/// The device names that Windows reserves: CON, PRN, AUX, NUL, COM1 to COM9
/// and LPT1 to LPT9.
pub open spec fn is_windows_reserved(u: Seq<char>) -> bool {
    ||| u == seq!['C', 'O', 'N']
    ||| u == seq!['P', 'R', 'N']
    ||| u == seq!['A', 'U', 'X']
    ||| u == seq!['N', 'U', 'L']
    ||| (u.len() == 4 && ((u[0] == 'C' && u[1] == 'O' && u[2] == 'M') || (u[0] == 'L' && u[1]
        == 'P' && u[2] == 'T')) && '1' <= u[3] <= '9')
}

/// The error for a name with characters `s` and length in bytes `byte_len`,
/// checked against the shared rules in order; `label` starts each message,
/// `max_len` bounds the length and `check_reserved` adds the Windows rule.
pub open spec fn name_error(
    label: Seq<char>,
    s: Seq<char>,
    byte_len: nat,
    max_len: nat,
    check_reserved: bool,
) -> Option<Seq<char>> {
    if s.len() == 0 {
        Some(label + " cannot be empty"@)
    } else if s == seq!['.'] || s == seq!['.', '.'] {
        Some(label + " cannot be '.' or '..'"@)
    } else if s.contains('/') || s.contains('\\') {
        Some(label + " cannot contain path separators (/ or \\)"@)
    } else if first_forbidden(s) is Some {
        Some(label + " cannot contain '"@ + seq![first_forbidden(s)->0] + "'"@)
    } else if is_unicode_whitespace(s[0]) || is_unicode_whitespace(s.last()) {
        Some(label + " cannot have leading or trailing whitespace"@)
    } else if exists|i: int| 0 <= i < s.len() && is_control_char(#[trigger] s[i]) {
        Some(label + " cannot contain control characters"@)
    } else if byte_len > max_len {
        Some(label + " cannot exceed "@ + decimal(max_len) + " characters"@)
    } else if check_reserved && is_windows_reserved(ascii_upper(s)) {
        Some("'"@ + s + "' is a reserved name on Windows"@)
    } else {
        None
    }
}

/// The length in bytes of the UTF-8 text of `s`, as `str::len` gives it.
pub open spec fn byte_len(s: Seq<char>) -> nat {
    (vstd::utf8::encode_utf8(s).len() as usize) as nat
}

/// The error for a project name, if it is invalid.
pub open spec fn project_name_error(name: Seq<char>) -> Option<Seq<char>> {
    name_error("Project name"@, name, byte_len(name), 255, true)
}

/// The error for a process name, if it is invalid.
pub open spec fn process_name_error(name: Seq<char>) -> Option<Seq<char>> {
    name_error("Process name"@, name, byte_len(name), 100, false)
}

pub fn is_whitespace(c: char) -> (r: bool)
    ensures
        r == is_unicode_whitespace(c),
{
    let u = c as u32;
    (0x09 <= u && u <= 0x0D) || u == 0x20 || u == 0x85 || u == 0xA0 || u == 0x1680 || (0x2000
        <= u && u <= 0x200A) || u == 0x2028 || u == 0x2029 || u == 0x202F || u == 0x205F || u
        == 0x3000
}

fn find_forbidden(s: &Vec<char>) -> (r: Option<char>)
    ensures
        r == first_forbidden(s@),
{
    let mut i: usize = 0;
    assert(s@.skip(0) =~= s@);
    while i < s.len()
        invariant
            i <= s.len(),
            first_forbidden(s@) == first_forbidden(s@.skip(i as int)),
        decreases s.len() - i,
    {
        assert(s@.skip(i as int).drop_first() =~= s@.skip(i + 1));
        let c = s[i];
        if c == ':' || c == '*' || c == '?' || c == '"' || c == '<' || c == '>' || c == '|' || c
            == '\0' {
            return Some(c);
        }
        i = i + 1;
    }
    assert(s@.skip(i as int).len() == 0);
    None
}

fn contains_char(s: &Vec<char>, c: char) -> (r: bool)
    ensures
        r == s@.contains(c),
{
    let mut i: usize = 0;
    while i < s.len()
        invariant
            i <= s.len(),
            forall|j: int| 0 <= j < i ==> s@[j] != c,
        decreases s.len() - i,
    {
        if s[i] == c {
            assert(s@[i as int] == c);
            return true;
        }
        i = i + 1;
    }
    false
}

fn has_control_char(s: &Vec<char>) -> (r: bool)
    ensures
        r == exists|i: int| 0 <= i < s@.len() && is_control_char(#[trigger] s@[i]),
{
    let mut i: usize = 0;
    while i < s.len()
        invariant
            i <= s.len(),
            forall|j: int| 0 <= j < i ==> !is_control_char(#[trigger] s@[j]),
        decreases s.len() - i,
    {
        let u = s[i] as u32;
        if u <= 0x1F || (0x7F <= u && u <= 0x9F) {
            assert(is_control_char(s@[i as int]));
            return true;
        }
        i = i + 1;
    }
    false
}

fn is_reserved_upper(s: &Vec<char>) -> (r: bool)
    ensures
        r == is_windows_reserved(ascii_upper(s@)),
{
    let ghost u = ascii_upper(s@);
    let mut up: Vec<char> = Vec::new();
    let mut i: usize = 0;
    while i < s.len()
        invariant
            i <= s.len(),
            up@ =~= u.take(i as int),
            u.len() == s@.len(),
            u == ascii_upper(s@),
        decreases s.len() - i,
    {
        let c = s[i];
        let d = if 'a' <= c && c <= 'z' {
            ((c as u32) - 32) as u8 as char
        } else {
            c
        };
        assert(d == u[i as int]);
        up.push(d);
        i = i + 1;
    }
    assert(up@ =~= u);
    let n = up.len();
    if n == 3 {
        let (a, b, c) = (up[0], up[1], up[2]);
        assert(up@ =~= seq![a, b, c]);
        (a == 'C' && b == 'O' && c == 'N') || (a == 'P' && b == 'R' && c == 'N') || (a == 'A'
            && b == 'U' && c == 'X') || (a == 'N' && b == 'U' && c == 'L')
    } else if n == 4 {
        let (a, b, c, d) = (up[0], up[1], up[2], up[3]);
        assert(up@ =~= seq![a, b, c, d]);
        ((a == 'C' && b == 'O' && c == 'M') || (a == 'L' && b == 'P' && c == 'T')) && '1' <= d
            && d <= '9'
    } else {
        false
    }
}

fn check_name(
    label: &str,
    name: &str,
    max_len: usize,
    check_reserved: bool,
) -> (r: Result<(), String>)
    requires
        max_len <= u64::MAX,
    ensures
        match name_error(label@, name@, name.len() as nat, max_len as nat, check_reserved) {
            None => r is Ok,
            Some(msg) => r matches Err(e) && e@ == msg,
        },
{
    let s = chars_of(name);
    let ghost sv = name@;
    let n = s.len();
    if n == 0 {
        let mut e = String::from_str(label);
        e.append(" cannot be empty");
        return Err(e);
    }
    if (n == 1 && s[0] == '.') || (n == 2 && s[0] == '.' && s[1] == '.') {
        assert(n == 1 && s[0] == '.' ==> sv =~= seq!['.']);
        assert(n == 2 && s[0] == '.' && s[1] == '.' ==> sv =~= seq!['.', '.']);
        let mut e = String::from_str(label);
        e.append(" cannot be '.' or '..'");
        return Err(e);
    }
    assert(sv != seq!['.'] && sv != seq!['.', '.']) by {
        if sv == seq!['.'] {
            assert(sv[0] == '.');
        }
        if sv == seq!['.', '.'] {
            assert(sv[0] == '.' && sv[1] == '.');
        }
    }
    if contains_char(&s, '/') || contains_char(&s, '\\') {
        let mut e = String::from_str(label);
        e.append(" cannot contain path separators (/ or \\)");
        return Err(e);
    }
    match find_forbidden(&s) {
        Some(c) => {
            let mut e = String::from_str(label);
            e.append(" cannot contain '");
            push_char(&mut e, c);
            e.append("'");
            return Err(e);
        },
        None => {},
    }
    if is_whitespace(s[0]) || is_whitespace(s[n - 1]) {
        let mut e = String::from_str(label);
        e.append(" cannot have leading or trailing whitespace");
        return Err(e);
    }
    if has_control_char(&s) {
        let mut e = String::from_str(label);
        e.append(" cannot contain control characters");
        return Err(e);
    }
    if name.len() > max_len {
        let mut e = String::from_str(label);
        e.append(" cannot exceed ");
        push_decimal(&mut e, max_len as u64);
        e.append(" characters");
        return Err(e);
    }
    if check_reserved && is_reserved_upper(&s) {
        let mut e = String::from_str("'");
        e.append(name);
        e.append("' is a reserved name on Windows");
        return Err(e);
    }
    Ok(())
}

/// Validates a project name: it must be usable as a directory name and an
/// identifier. Returns the first rule it breaks as the error message.
pub fn validate_project_name(name: &str) -> (r: Result<(), String>)
    ensures
        match project_name_error(name@) {
            None => r is Ok,
            Some(msg) => r matches Err(e) && e@ == msg,
        },
{
    check_name("Project name", name, 255, true)
}

/// Validates a process name: it must be usable as an identifier in logs and
/// listings. Returns the first rule it breaks as the error message.
pub fn validate_process_name(name: &str) -> (r: Result<(), String>)
    ensures
        match process_name_error(name@) {
            None => r is Ok,
            Some(msg) => r matches Err(e) && e@ == msg,
        },
{
    check_name("Process name", name, 100, false)
}

} // verus!
