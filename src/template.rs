//! The command templating engine: placeholders in each argument of an exec
//! template are replaced by parts of the path and by tags, each argument is
//! escaped and quoted, and the arguments make one shell command line.
use vstd::prelude::*;
use crate::paths::{
    file_name, file_stem, parent, path_file_name, path_file_stem, path_parent,
    path_without_extension, without_extension,
};
use crate::text::{
    chars_of, escape_chars, escape_quoted, join_chars, join_with, replace_all, replace_chars,
    string_of, texts, extend_chars,
};

verus! {

/// The parts of a path that placeholders stand for.
pub struct PathParts {
    /// The whole path: `{}`.
    pub path: String,
    /// The last component: `{/}`.
    pub name: String,
    /// The path without its last component: `{//}`.
    pub parent: String,
    /// The last component without its extension: `{/.}`.
    pub stem: String,
    /// The path without the extension of its last component: `{.}`.
    pub without_ext: String,
}

impl PathParts {
    /// The parts of `path`.
    pub fn of(path: &String) -> (r: PathParts)
        ensures
            r.path@ == path@,
            r.name@ == path_file_name(path@),
            r.parent@ == path_parent(path@),
            r.stem@ == path_file_stem(path@),
            r.without_ext@ == path_without_extension(path@),
    {
        PathParts {
            path: path.clone(),
            name: file_name(path.as_str()),
            parent: parent(path.as_str()),
            stem: file_stem(path.as_str()),
            without_ext: without_extension(path.as_str()),
        }
    }
}

/// Whether an argument is exactly one of the shell operators that pass
/// through unquoted: `|`, `&`, `&&`, `<`, `>`, `>>`, `<<`.
pub open spec fn is_shell_operator(a: Seq<char>) -> bool {
    ||| a == seq!['|']
    ||| a == seq!['&']
    ||| a == seq!['&', '&']
    ||| a == seq!['<']
    ||| a == seq!['>']
    ||| a == seq!['>', '>']
    ||| a == seq!['<', '<']
}

/// The tag at position `i`, or the empty string where there is none.
pub open spec fn tag_at(tags: Seq<Seq<char>>, i: int) -> Seq<char> {
    if 0 <= i < tags.len() {
        tags[i]
    } else {
        Seq::empty()
    }
}

/// All tags, each preceded by `#`: the value of `{0}`.
pub open spec fn hashed_tags(tags: Seq<Seq<char>>) -> Seq<char> {
    seq!['#'] + join_with(tags, seq!['#'])
}

/// An argument with its placeholders replaced, in this order: `{1}`, `{2}`,
/// `{3}`, `{0}`, `{.}`, `{/.}`, `{//}`, `{/}`, `{}`.
pub open spec fn substituted(arg: Seq<char>, parts: PathParts, tags: Seq<Seq<char>>) -> Seq<char> {
    let a = replace_all(arg, seq!['{', '1', '}'], tag_at(tags, 0));
    let a = replace_all(a, seq!['{', '2', '}'], tag_at(tags, 1));
    let a = replace_all(a, seq!['{', '3', '}'], tag_at(tags, 2));
    let a = replace_all(a, seq!['{', '0', '}'], hashed_tags(tags));
    let a = replace_all(a, seq!['{', '.', '}'], parts.without_ext@);
    let a = replace_all(a, seq!['{', '/', '.', '}'], parts.stem@);
    let a = replace_all(a, seq!['{', '/', '/', '}'], parts.parent@);
    let a = replace_all(a, seq!['{', '/', '}'], parts.name@);
    replace_all(a, seq!['{', '}'], parts.path@)
}

/// One argument of the command line: a shell operator as it is, any other
/// argument substituted, escaped and put between double quotes.
pub open spec fn rendered_argument(arg: Seq<char>, parts: PathParts, tags: Seq<Seq<char>>) -> Seq<
    char,
> {
    if is_shell_operator(arg) {
        arg
    } else {
        seq!['"'] + escape_quoted(substituted(arg, parts, tags)) + seq!['"']
    }
}

/// The command line: the rendered arguments joined by single spaces.
pub open spec fn command_line(args: Seq<Seq<char>>, parts: PathParts, tags: Seq<Seq<char>>) -> Seq<
    char,
> {
    join_with(args.map_values(|a: Seq<char>| rendered_argument(a, parts, tags)), seq![' '])
}

fn shell_operator(a: &Vec<char>) -> (r: bool)
    ensures
        r == is_shell_operator(a@),
{
    let r = if a.len() == 1 {
        a[0] == '|' || a[0] == '&' || a[0] == '<' || a[0] == '>'
    } else if a.len() == 2 {
        (a[0] == '&' && a[1] == '&') || (a[0] == '>' && a[1] == '>') || (a[0] == '<' && a[1] == '<')
    } else {
        false
    };
    proof {
        if a@.len() == 1 {
            assert(a@ =~= seq![a@[0]]);
        } else if a@.len() == 2 {
            assert(a@ =~= seq![a@[0], a@[1]]);
        }
    }
    r
}

fn tag_chars(tags: &Vec<String>, i: usize) -> (r: Vec<char>)
    ensures
        r@ == tag_at(texts(tags@), i as int),
{
    if i < tags.len() {
        chars_of(tags[i].as_str())
    } else {
        Vec::new()
    }
}

/// Renders one argument of an exec template for an entry.
pub fn render_argument(arg: &String, parts: &PathParts, tags: &Vec<String>) -> (r: String)
    ensures
        r@ == rendered_argument(arg@, *parts, texts(tags@)),
{
    let a = chars_of(arg.as_str());
    if shell_operator(&a) {
        return arg.clone();
    }
    let ghost t = texts(tags@);
    let mut hashed: Vec<char> = vec!['#'];
    let sep: Vec<char> = vec!['#'];
    assert(sep@ =~= seq!['#']);
    let joined = join_chars(tags, &sep);
    extend_chars(&mut hashed, &joined);
    assert(hashed@ =~= hashed_tags(t));
    let a = replace_chars(&a, &vec!['{', '1', '}'], &tag_chars(tags, 0));
    let a = replace_chars(&a, &vec!['{', '2', '}'], &tag_chars(tags, 1));
    let a = replace_chars(&a, &vec!['{', '3', '}'], &tag_chars(tags, 2));
    let a = replace_chars(&a, &vec!['{', '0', '}'], &hashed);
    let a = replace_chars(&a, &vec!['{', '.', '}'], &chars_of(parts.without_ext.as_str()));
    let a = replace_chars(&a, &vec!['{', '/', '.', '}'], &chars_of(parts.stem.as_str()));
    let a = replace_chars(&a, &vec!['{', '/', '/', '}'], &chars_of(parts.parent.as_str()));
    let a = replace_chars(&a, &vec!['{', '/', '}'], &chars_of(parts.name.as_str()));
    let a = replace_chars(&a, &vec!['{', '}'], &chars_of(parts.path.as_str()));
    assert(a@ == substituted(arg@, *parts, t));
    let escaped = escape_chars(&a);
    let mut out: Vec<char> = vec!['"'];
    extend_chars(&mut out, &escaped);
    out.push('"');
    assert(out@ =~= seq!['"'] + escape_quoted(a@) + seq!['"']);
    string_of(&out)
}

/// Renders a whole exec template for an entry into one command line.
pub fn render_command(args: &Vec<String>, parts: &PathParts, tags: &Vec<String>) -> (r: String)
    ensures
        r@ == command_line(texts(args@), *parts, texts(tags@)),
{
    let mut rendered: Vec<String> = Vec::new();
    let mut i: usize = 0;
    while i < args.len()
        invariant
            i <= args@.len(),
            rendered@.len() == i,
            forall|j: int|
                0 <= j < i ==> #[trigger] rendered@[j]@ == rendered_argument(
                    args@[j]@,
                    *parts,
                    texts(tags@),
                ),
        decreases args.len() - i,
    {
        rendered.push(render_argument(&args[i], parts, tags));
        i = i + 1;
    }
    let space: Vec<char> = vec![' '];
    assert(space@ =~= seq![' ']);
    let line = join_chars(&rendered, &space);
    assert(texts(rendered@) =~= texts(args@).map_values(
        |a: Seq<char>| rendered_argument(a, *parts, texts(tags@)),
    ));
    string_of(&line)
}

} // verus!
