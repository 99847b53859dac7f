//! The two components that describe a file to the entity that stands for
//! it: the name under which it is shown, and the path it was found at.
use vstd::prelude::*;
use crate::text::{
    ends_with,
    is_part_of,
    names_no_file,
    path_file_name,
    trim_end_matches,
    without_suffixes,
};

verus! {

/// The name of a file without its ending.
#[derive(Clone, Debug, PartialEq, Eq)]
pub struct FileName(pub String);

/// The path of a file, as text.
#[derive(Clone, Debug, PartialEq, Eq)]
pub struct FilePath(pub String);

/// Whether the last dot of `name` stands at `at`.
pub open spec fn is_last_dot(name: Seq<char>, at: int) -> bool {
    &&& 0 <= at < name.len()
    &&& name[at] == '.'
    &&& forall|j: int| at < j < name.len() ==> name[j] != '.'
}

/// The ending of a file called `name`: what follows its last dot. A name
/// without a dot has no ending, nor has a name whose only dot is its first
/// character, nor has the name `..`.
pub open spec fn ending_view(name: Seq<char>) -> Option<Seq<char>> {
    if name != seq!['.', '.'] && exists|at: int| at > 0 && is_last_dot(name, at) {
        let at = choose|at: int| at > 0 && is_last_dot(name, at);
        Some(name.subrange(at + 1, name.len() as int))
    } else {
        None
    }
}

/// The ending of a file called `name`, computed.
pub fn ending_of(name: &str) -> (ending: Option<String>)
    ensures
        (match ending {
            Some(ending) => Some(ending@),
            None => None,
        }) == ending_view(name@),
{
    let len = name.unicode_len();
    let mut i = len;
    while i > 0
        invariant
            i <= len,
            len == name@.len(),
            forall|j: int| i <= j < len ==> name@[j] != '.',
        decreases i,
    {
        if name.get_char(i - 1) == '.' {
            let at = i - 1;
            assert(is_last_dot(name@, at as int));
            assert forall|other: int| is_last_dot(name@, other) implies other == at by {
                if other < at {
                    assert(name@[at as int] == '.');
                } else if other > at {
                    assert(name@[other] == '.');
                }
            }
            if at == 0 {
                return None;
            }
            if len == 2 && name.get_char(0) == '.' {
                assert(name@ =~= seq!['.', '.']);
                return None;
            }
            assert(name@ != seq!['.', '.']) by {
                if name@ == seq!['.', '.'] {
                    assert(name@.len() == 2);
                    assert(name@[0] == '.');
                }
            }
            let ending = String::from_str(name.substring_char(i, len));
            return Some(ending);
        }
        i = i - 1;
    }
    assert forall|other: int| !is_last_dot(name@, other) by {
        if 0 <= other < len {
            assert(name@[other] != '.');
        }
    }
    None
}

/// The name to show for a file called `file_name` whose ending is `ending`:
/// the file name without the dot and the ending, however often it ends with
/// them. A file without an ending keeps its whole name.
pub open spec fn shown_name(file_name: Seq<char>, ending: Option<Seq<char>>) -> Seq<char> {
    match ending {
        Some(ending) => without_suffixes(file_name, seq!['.'] + ending),
        None => file_name,
    }
}

/// The components for the file at `path`, given the last component of the
/// path and that component's ending. A path without a last component
/// names no file, and has no components.
pub fn bundle_from_parts(path: &str, file_name: Option<String>, ending: Option<String>) -> (bundle:
    Option<(FileName, FilePath)>)
    ensures
        bundle is Some <==> file_name is Some,
        bundle matches Some(pair) ==> {
            &&& pair.0.0@ == shown_name(
                file_name->0@,
                match ending {
                    Some(ending) => Some(ending@),
                    None => None,
                },
            )
            &&& pair.1.0@ == path@
        },
{
    match file_name {
        None => None,
        Some(name) => {
            let shown = match ending {
                Some(ending) => {
                    let mut suffix = String::from_str(".");
                    suffix.append(ending.as_str());
                    proof {
                        reveal_strlit(".");
                        assert(suffix@ =~= seq!['.'] + ending@);
                    }
                    trim_end_matches(name.as_str(), suffix.as_str())
                },
                None => name,
            };
            Some((FileName(shown), FilePath(String::from_str(path))))
        },
    }
}

/// Taking copies of a suffix off a text never makes it longer.
pub proof fn lemma_without_suffixes_is_no_longer(text: Seq<char>, suffix: Seq<char>)
    ensures
        without_suffixes(text, suffix).len() <= text.len(),
    decreases text.len(),
{
    if suffix.len() > 0 && ends_with(text, suffix) {
        lemma_without_suffixes_is_no_longer(text.take(text.len() - suffix.len()), suffix);
    }
}

/// A file that has an ending ends with a dot and that ending, and the name
/// that is shown for it is shorter than its file name: the dot and the
/// ending are taken off at least once.
pub proof fn lemma_ending_is_taken_off(name: Seq<char>)
    requires
        ending_view(name) is Some,
    ensures
        ends_with(name, seq!['.'] + ending_view(name)->0),
        shown_name(name, ending_view(name)).len() + 1 + ending_view(name)->0.len() <= name.len(),
        shown_name(name, ending_view(name)) != name,
{
    let at = choose|at: int| at > 0 && is_last_dot(name, at);
    let ending = ending_view(name)->0;
    let suffix = seq!['.'] + ending;
    assert(name.subrange(name.len() - suffix.len(), name.len() as int) =~= suffix);
    lemma_without_suffixes_is_no_longer(name.take(name.len() - suffix.len()), suffix);
}

/// The components for the file whose path is `path` and whose file name,
/// the last component of the path, is `file_name`: the file name without
/// its ending, and the path. Without a file name there are no components.
pub fn bundle_from_file_name(path: &str, file_name: Option<String>) -> (bundle: Option<
    (FileName, FilePath),
>)
    ensures
        bundle is Some <==> file_name is Some,
        bundle matches Some(pair) ==> {
            &&& pair.0.0@ == shown_name(file_name->0@, ending_view(file_name->0@))
            &&& pair.1.0@ == path@
        },
{
    let ending = match &file_name {
        Some(name) => ending_of(name.as_str()),
        None => None,
    };
    bundle_from_parts(path, file_name, ending)
}

/// Whether `path` names no file by its form alone: whether it is the root,
/// or ends in the component `..`.
pub fn lacks_file_name(path: &str) -> (lacks: bool)
    ensures
        lacks == names_no_file(path@),
{
    proof {
        reveal_strlit("/");
        reveal_strlit("..");
        reveal_strlit("/..");
    }
    let len = path.unicode_len();
    if len == 1 {
        let lacks = path.get_char(0) == '/';
        assert(lacks <==> path@ =~= "/"@);
        lacks
    } else if len == 2 {
        let lacks = path.get_char(0) == '.' && path.get_char(1) == '.';
        assert(lacks <==> path@ =~= ".."@);
        lacks
    } else if len >= 3 {
        let lacks = path.get_char(len - 3) == '/' && path.get_char(len - 2) == '.' && path.get_char(
            len - 1,
        ) == '.';
        let ghost tail = path@.subrange(len - 3, len as int);
        assert(tail.len() == 3 && tail[0] == path@[len - 3] && tail[1] == path@[len - 2] && tail[2]
            == path@[len - 1]);
        assert(lacks <==> tail =~= "/.."@);
        lacks
    } else {
        false
    }
}

/// The components for the file at `path`, or `None` where the platform
/// finds no last component in the path to name a file by.
///
/// The root and a path that ends in `..` have no last component on any
/// platform, and are not for this function: [`lacks_file_name`] tells
/// them. Any other path is taken apart as the platform takes paths apart.
/// The name that is shown is made of a piece of the path, as
/// [`bundle_from_file_name`] makes it.
pub fn default_bundle_from_path(path: &str) -> (bundle: Option<(FileName, FilePath)>)
    requires
        !names_no_file(path@),
    ensures
        bundle matches Some(pair) ==> {
            &&& pair.1.0@ == path@
            &&& exists|name: Seq<char>| #[trigger]
                is_part_of(name, path@) && pair.0.0@ == shown_name(name, ending_view(name))
        },
{
    let file_name = path_file_name(path);
    bundle_from_file_name(path, file_name)
}

} // verus!
