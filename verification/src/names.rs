//! Names under which uploaded parts are stored.
//!
//! A part whose declared file name holds a `.` is stored under five random
//! characters, a `.` and what followed the last `.` of the declared name.
//! Any other part is stored under six random characters.

use vstd::prelude::*;
use vstd::string::StringExecFns;
use crate::alphabet::all_word_chars;
use crate::generator::{
    draw_index, drawn_string, drawn_strings_are_the_words, draws_decide_string,
    generate_random_string, string_for_draws,
};
use crate::text::{chars_of, opt_str_view, string_from};

verus! {

/// Number of random characters in front of an extension.
pub const PREFIX_LEN: usize = 5;

/// Number of random characters of a name without extension.
pub const BARE_LEN: usize = 6;

/// The directory that uploads are stored in.
pub const UPLOADS_DIR: &'static str = "./uploads";

/// The greatest index at which `s` holds a `.`, or -1 where it holds none.
pub open spec fn last_dot(s: Seq<char>) -> int
    decreases s.len(),
{
    if s.len() == 0 {
        -1
    } else if s.last() == '.' {
        s.len() - 1
    } else {
        last_dot(s.drop_last())
    }
}

/// What follows the last `.` of `s`, or `None` where `s` holds no `.`.
pub open spec fn extension(s: Seq<char>) -> Option<Seq<char>> {
    if last_dot(s) < 0 {
        None
    } else {
        Some(s.skip(last_dot(s) + 1))
    }
}

/// The extension of a part's declared file name, if it has both.
pub open spec fn extension_for(filename: Option<Seq<char>>) -> Option<Seq<char>> {
    match filename {
        Some(f) => extension(f),
        None => None,
    }
}

/// Number of random characters that a name starts with.
pub open spec fn prefix_len(extension: Option<Seq<char>>) -> nat {
    if extension is Some {
        PREFIX_LEN as nat
    } else {
        BARE_LEN as nat
    }
}

/// The name made of a random prefix and an extension.
pub open spec fn name_with(prefix: Seq<char>, extension: Option<Seq<char>>) -> Seq<char> {
    match extension {
        Some(e) => prefix + seq!['.'] + e,
        None => prefix,
    }
}

/// Whether `name` is a name that may be generated for a part with the
/// declared file name `filename`: random characters of the alphabet, five
/// of them followed by `.` and the extension, or six of them alone.
pub open spec fn is_generated_name(name: Seq<char>, filename: Option<Seq<char>>) -> bool {
    let ext = extension_for(filename);
    let n = prefix_len(ext);
    &&& n <= name.len()
    &&& all_word_chars(name.take(n as int))
    &&& name == name_with(name.take(n as int), ext)
}

/// The name that `draws` give a part with the declared file name
/// `filename`: the string that the draws select, and the extension.
pub open spec fn drawn_name(filename: Option<Seq<char>>, draws: Seq<u32>) -> Seq<char> {
    name_with(drawn_string(draws), extension_for(filename))
}

/// Whether `name` is the name that some draws give a part with the declared
/// file name `filename`, the draws being as many as the name has random
/// characters.
pub open spec fn is_drawn_name(name: Seq<char>, filename: Option<Seq<char>>) -> bool {
    exists|draws: Seq<u32>|
        draws.len() == prefix_len(extension_for(filename)) && #[trigger] drawn_name(
            filename,
            draws,
        ) == name
}

/// Whether `name` has the shape of a generated name: six characters of the
/// alphabet, or five of them, a `.` and an extension, which holds no `.`.
pub open spec fn has_name_shape(name: Seq<char>) -> bool {
    ||| name.len() == BARE_LEN && all_word_chars(name)
    ||| {
        &&& name.len() > PREFIX_LEN
        &&& all_word_chars(name.take(PREFIX_LEN as int))
        &&& name[PREFIX_LEN as int] == '.'
        &&& forall|j: int| PREFIX_LEN < j < name.len() ==> name[j] != '.'
    }
}

/// Whether each of `names` has the shape of a generated name.
pub open spec fn all_have_name_shape(names: Seq<Seq<char>>) -> bool {
    forall|i: int| 0 <= i < names.len() ==> has_name_shape(#[trigger] names[i])
}

/// The path of the file that is stored under `name`.
pub open spec fn path_of(name: Seq<char>) -> Seq<char> {
    UPLOADS_DIR@ + seq!['/'] + name
}

/// `last_dot` is what its name says: -1 exactly where `s` holds no `.`, and
/// else the index of a `.` after which no other follows.
pub proof fn last_dot_is_last(s: Seq<char>)
    ensures
        -1 <= last_dot(s) < s.len(),
        last_dot(s) >= 0 ==> s[last_dot(s)] == '.',
        forall|j: int| last_dot(s) < j < s.len() ==> s[j] != '.',
    decreases s.len(),
{
    if s.len() > 0 && s.last() != '.' {
        let front = s.drop_last();
        last_dot_is_last(front);
        assert forall|j: int| last_dot(s) < j < s.len() implies s[j] != '.' by {
            if j < front.len() {
                assert(front[j] == s[j]);
            }
        }
    }
}

/// Where `s` holds a `.` at `i` and none after it, `i` is its last dot; where
/// it holds none at all, it has no last dot.
pub proof fn last_dot_found(s: Seq<char>, i: int)
    requires
        -1 <= i < s.len(),
        i >= 0 ==> s[i] == '.',
        forall|j: int| i < j < s.len() ==> s[j] != '.',
    ensures
        last_dot(s) == i,
    decreases s.len(),
{
    if s.len() > 0 && s.last() != '.' {
        last_dot_found(s.drop_last(), i);
    }
}

/// What follows the last `.` of `filename`, if it holds one.
pub fn extension_of(filename: &str) -> (r: Option<String>)
    ensures
        match r {
            Some(e) => extension(filename@) == Some(e@),
            None => extension(filename@) is None,
        },
{
    let chars = chars_of(filename);
    let mut i: usize = chars.len();
    while i > 0
        invariant
            i <= chars.len(),
            chars@ == filename@,
            forall|j: int| i <= j < chars.len() ==> chars@[j] != '.',
        decreases i,
    {
        if chars[i - 1] == '.' {
            proof {
                last_dot_found(chars@, i - 1);
            }
            return Some(string_from(&chars, i));
        }
        i = i - 1;
    }
    proof {
        last_dot_found(chars@, -1);
    }
    None
}

/// Puts a random prefix and an extension together.
pub fn compose_name(prefix: String, extension: Option<&str>) -> (name: String)
    ensures
        name@ == name_with(prefix@, opt_str_view(extension)),
{
    let mut name = prefix;
    if let Some(e) = extension {
        name.push('.');
        name.append(e);
    }
    name
}

/// The name that `draws` give a part with the declared file name
/// `filename`.
pub fn name_for_draws(filename: Option<&str>, draws: &Vec<u32>) -> (name: String)
    ensures
        name@ == drawn_name(opt_str_view(filename), draws@),
{
    let ext = match filename {
        Some(f) => extension_of(f),
        None => None,
    };
    let prefix = string_for_draws(draws);
    match ext {
        Some(e) => compose_name(prefix, Some(e.as_str())),
        None => prefix,
    }
}

/// A fresh name for a part with the declared file name `filename`: the
/// name that the call's draws give the part. Nothing is checked against
/// names given out before: two parts may, rarely, get the same name.
pub fn generate_name(filename: Option<&str>) -> (name: String)
    ensures
        is_generated_name(name@, opt_str_view(filename)),
        is_drawn_name(name@, opt_str_view(filename)),
{
    let ext = match filename {
        Some(f) => extension_of(f),
        None => None,
    };
    let name = match ext {
        Some(e) => {
            let prefix = generate_random_string(PREFIX_LEN);
            let name = compose_name(prefix, Some(e.as_str()));
            assert(name@.take(PREFIX_LEN as int) == prefix@);
            name
        },
        None => {
            let name = generate_random_string(BARE_LEN);
            assert(name@.take(BARE_LEN as int) == name@);
            name
        },
    };
    proof {
        generated_names_are_the_drawn_names(name@, opt_str_view(filename));
    }
    name
}

/// The path of the file that is stored under `name`.
pub fn upload_path(name: &str) -> (path: String)
    ensures
        path@ == path_of(name@),
{
    let mut path = UPLOADS_DIR.to_owned();
    path.push('/');
    path.append(name);
    path
}

/// The stored name has the extension of the declared file name, and none
/// where that has none.
pub proof fn generated_name_keeps_extension(name: Seq<char>, filename: Option<Seq<char>>)
    requires
        is_generated_name(name, filename),
    ensures
        extension(name) == extension_for(filename),
{
    last_dot_is_last(name);
    if let Some(f) = filename {
        last_dot_is_last(f);
    }
    if extension_for(filename) is Some {
        assert(name[PREFIX_LEN as int] == '.');
    }
}

/// Whatever file name a part declares, the name generated for it has the
/// shape of a generated name.
pub proof fn generated_name_has_shape(name: Seq<char>, filename: Option<Seq<char>>)
    requires
        is_generated_name(name, filename),
    ensures
        has_name_shape(name),
{
    if let Some(f) = filename {
        last_dot_is_last(f);
    }
}

/// Every prefix of the right length over the alphabet gives a name that may
/// be generated: nothing but the prefix's length and its characters is
/// asked of it.
pub proof fn any_prefix_gives_a_name(prefix: Seq<char>, filename: Option<Seq<char>>)
    requires
        all_word_chars(prefix),
        prefix.len() == prefix_len(extension_for(filename)),
    ensures
        is_generated_name(name_with(prefix, extension_for(filename)), filename),
{
    let name = name_with(prefix, extension_for(filename));
    assert(name.take(prefix.len() as int) == prefix);
}

/// The declared file name does not determine the stored name: whatever a
/// part declares, more than one name may be generated for it, so that the
/// same upload made twice need not be stored under the same name.
pub proof fn name_is_not_determined(filename: Option<Seq<char>>)
    ensures
        exists|a: Seq<char>, b: Seq<char>|
            a != b && #[trigger] is_generated_name(a, filename) && #[trigger] is_generated_name(
                b,
                filename,
            ),
{
    let n = prefix_len(extension_for(filename));
    let p = Seq::new(n, |i: int| 'A');
    let q = Seq::new(n, |i: int| 'B');
    let a = name_with(p, extension_for(filename));
    let b = name_with(q, extension_for(filename));
    any_prefix_gives_a_name(p, filename);
    any_prefix_gives_a_name(q, filename);
    assert(a[0] == p[0] && b[0] == q[0]);
}

/// The names that may be generated for a part are the names that draws
/// give it, each of them.
pub proof fn generated_names_are_the_drawn_names(name: Seq<char>, filename: Option<Seq<char>>)
    ensures
        is_generated_name(name, filename) <==> is_drawn_name(name, filename),
{
    let ext = extension_for(filename);
    let n = prefix_len(ext);
    if is_generated_name(name, filename) {
        let prefix = name.take(n as int);
        drawn_strings_are_the_words(prefix);
        let draws = choose|draws: Seq<u32>|
            draws.len() == prefix.len() && #[trigger] drawn_string(draws) == prefix;
        assert(drawn_name(filename, draws) == name);
    }
    if is_drawn_name(name, filename) {
        let draws = choose|draws: Seq<u32>|
            draws.len() == n && #[trigger] drawn_name(filename, draws) == name;
        let prefix = drawn_string(draws);
        drawn_strings_are_the_words(prefix);
        assert(drawn_string(draws) == prefix);
        any_prefix_gives_a_name(prefix, filename);
    }
}

/// The draws decide the name: two sequences of as many draws give a part
/// the same name exactly where each two draws at one place select the same
/// position of the alphabet. Draws that differ in the position at one place
/// or more give two different names.
pub proof fn draws_decide_name(filename: Option<Seq<char>>, a: Seq<u32>, b: Seq<u32>)
    requires
        a.len() == b.len(),
    ensures
        drawn_name(filename, a) == drawn_name(filename, b) <==> forall|i: int|
            0 <= i < a.len() ==> draw_index(#[trigger] a[i]) == draw_index(b[i]),
{
    draws_decide_string(a, b);
    let n = a.len() as int;
    assert(drawn_name(filename, a).take(n) == drawn_string(a));
    assert(drawn_name(filename, b).take(n) == drawn_string(b));
}

/// Two different names are stored in two different files.
pub proof fn other_name_has_another_path(a: Seq<char>, b: Seq<char>)
    requires
        a != b,
    ensures
        path_of(a) != path_of(b),
{
    let n = UPLOADS_DIR@.len() as int + 1;
    assert(path_of(a).skip(n) == a);
    assert(path_of(b).skip(n) == b);
}

} // verus!
