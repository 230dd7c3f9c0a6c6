//! Process keys: the `project/name` pair that identifies a managed process.

use vstd::prelude::*;
use vstd::string::*;
use crate::text::{chars_of, push_char, string_from_chars};

verus! {

/// A unique identifier for a process: its project and its name.
///
/// The key's text form is `project/name`.
#[derive(Debug, Clone, PartialEq, Eq, Hash)]
pub struct ProcessKey {
    pub project: String,
    pub name: String,
}

/// The text form of a key with the given project and name.
pub open spec fn key_text(project: Seq<char>, name: Seq<char>) -> Seq<char> {
    project + seq!['/'] + name
}

/// `i` is the position of the only `/` in `s`.
pub open spec fn only_slash_at(s: Seq<char>, i: int) -> bool {
    &&& 0 <= i < s.len()
    &&& s[i] == '/'
    &&& forall|j: int| 0 <= j < s.len() && j != i ==> s[j] != '/'
}

/// `name` with every `/` replaced by `_`.
pub open spec fn sanitize(name: Seq<char>) -> Seq<char> {
    name.map_values(|c: char| if c == '/' { '_' } else { c })
}

impl ProcessKey {
    /// The key's text form, `project/name`.
    pub open spec fn text(&self) -> Seq<char> {
        key_text(self.project@, self.name@)
    }

    /// Creates a key from a project and a name.
    pub fn new(project: &str, name: &str) -> (k: Self)
        ensures
            k.project@ == project@,
            k.name@ == name@,
    {
        ProcessKey { project: String::from_str(project), name: String::from_str(name) }
    }

    /// Parses the `project/name` form. The text must hold exactly one `/`;
    /// the part before it is the project and the part after it the name.
    pub fn parse(key: &str) -> (r: Option<Self>)
        ensures
            match r {
                Some(k) => exists|i: int|
                    only_slash_at(key@, i) && k.project@ == key@.take(i) && k.name@ == key@.skip(
                        i + 1,
                    ),
                None => forall|i: int| !only_slash_at(key@, i),
            },
    {
        let s = chars_of(key);
        let mut count: usize = 0;
        let mut pos: usize = 0;
        let mut i: usize = 0;
        while i < s.len()
            invariant
                i <= s.len(),
                s@ == key@,
                count <= i,
                count == 0 ==> forall|j: int| 0 <= j < i ==> s@[j] != '/',
                count >= 1 ==> pos < i && s@[pos as int] == '/',
                count == 1 ==> forall|j: int| 0 <= j < i && j != pos ==> s@[j] != '/',
                count >= 2 ==> exists|j: int| 0 <= j < i && j != pos && s@[j] == '/',
            decreases s.len() - i,
        {
            if s[i] == '/' {
                if count == 0 {
                    pos = i;
                } else {
                    assert(s@[i as int] == '/' && i != pos);
                }
                count = count + 1;
            }
            i = i + 1;
        }
        if count == 1 {
            let project = string_from_chars(&s, 0, pos);
            let name = string_from_chars(&s, pos + 1, s.len());
            assert(only_slash_at(key@, pos as int));
            assert(project@ =~= key@.take(pos as int));
            assert(name@ =~= key@.skip(pos + 1));
            Some(ProcessKey { project, name })
        } else {
            assert forall|k: int| !only_slash_at(key@, k) by {
                if only_slash_at(key@, k) {
                    if count >= 2 {
                        let j = choose|j: int| 0 <= j < s@.len() && j != pos && s@[j] == '/';
                        assert(j == k && pos as int == k);
                    }
                }
            }
            None
        }
    }

    /// The key's text form, `project/name`.
    pub fn as_str(&self) -> (r: String)
        ensures
            r@ == self.text(),
    {
        let mut s = self.project.clone();
        push_char(&mut s, '/');
        s.append(self.name.as_str());
        assert(s@ =~= self.text());
        s
    }

    /// The key under which the process's log file handle is kept: its text
    /// form.
    pub fn log_handle_key(&self) -> (r: String)
        ensures
            r@ == self.text(),
    {
        self.as_str()
    }

    /// The name with every `/` replaced by `_`, safe as a file name.
    pub fn sanitized_name(&self) -> (r: String)
        ensures
            r@ == sanitize(self.name@),
    {
        let v = chars_of(self.name.as_str());
        let mut s = String::new();
        let mut i: usize = 0;
        while i < v.len()
            invariant
                i <= v.len(),
                v@ == self.name@,
                s@ =~= sanitize(self.name@).take(i as int),
            decreases v.len() - i,
        {
            let c = v[i];
            push_char(&mut s, if c == '/' { '_' } else { c });
            assert(sanitize(self.name@).take(i + 1) =~= sanitize(self.name@).take(i as int).push(
                sanitize(self.name@)[i as int],
            ));
            i = i + 1;
        }
        assert(sanitize(self.name@).take(v.len() as int) =~= sanitize(self.name@));
        s
    }
}

/// Law: printing a key and parsing the text gives the key back, provided
/// neither the project nor the name contains `/`.
pub proof fn parse_inverts_text(project: Seq<char>, name: Seq<char>)
    requires
        !project.contains('/'),
        !name.contains('/'),
    ensures
        only_slash_at(key_text(project, name), project.len() as int),
        key_text(project, name).take(project.len() as int) == project,
        key_text(project, name).skip(project.len() as int + 1) == name,
        forall|i: int|
            #![trigger only_slash_at(key_text(project, name), i)]
            only_slash_at(key_text(project, name), i) ==> i == project.len(),
{
    let t = key_text(project, name);
    let p = project.len() as int;
    assert forall|j: int| 0 <= j < t.len() && j != p implies t[j] != '/' by {
        if j < p {
            assert(t[j] == project[j]);
        } else {
            assert(t[j] == name[j - p - 1]);
        }
    }
    assert(t.take(p) =~= project);
    assert(t.skip(p + 1) =~= name);
}

/// Law: the text of a parsed key is the text that was parsed.
pub proof fn text_inverts_parse(key: Seq<char>, i: int)
    requires
        only_slash_at(key, i),
    ensures
        key_text(key.take(i), key.skip(i + 1)) == key,
{
    assert(key_text(key.take(i), key.skip(i + 1)) =~= key);
}


/// A valid project name and a valid process name make a key whose text
/// form reads back as the same project and name, and the process name needs
/// no sanitising for its log file.
pub proof fn valid_names_make_readable_keys(project: Seq<char>, name: Seq<char>)
    requires
        crate::validation::project_name_error(project) is None,
        crate::validation::process_name_error(name) is None,
    ensures
        only_slash_at(key_text(project, name), project.len() as int),
        forall|i: int|
            #![trigger only_slash_at(key_text(project, name), i)]
            only_slash_at(key_text(project, name), i) ==> i == project.len(),
        key_text(project, name).take(project.len() as int) == project,
        key_text(project, name).skip(project.len() as int + 1) == name,
        sanitize(name) == name,
{
    parse_inverts_text(project, name);
    assert(sanitize(name) =~= name) by {
        assert forall|k: int| 0 <= k < name.len() implies name[k] != '/' by {
            if name[k] == '/' {
                assert(name.contains('/'));
            }
        }
    }
}

} // verus!
