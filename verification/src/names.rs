//! The grammar of configuration file names: a configuration called `wg0` is
//! the file `wg0.conf`, and a path names the file after its last `/`.

use vstd::prelude::*;

verus! {

/// The extension that marks a tunnel configuration file, with its dot.
pub open spec fn conf_suffix() -> Seq<char> {
    ".conf"@
}

/// The last component of `path`: its longest suffix that holds no `/`.
pub open spec fn file_name(path: Seq<char>) -> Seq<char>
    decreases path.len(),
{
    if path.len() == 0 || path.last() == '/' {
        Seq::empty()
    } else {
        file_name(path.drop_last()).push(path.last())
    }
}

/// Whether `file` is a non-empty stem followed by `.conf`. A file called
/// just `.conf` is a hidden file without extension, and does not count.
pub open spec fn has_conf_extension(file: Seq<char>) -> bool {
    let stem_len = file.len() - conf_suffix().len();
    stem_len > 0 && file.skip(stem_len) == conf_suffix()
}

/// `file` without its last characters, as many as `.conf` has: the name of
/// the configuration that `file` holds, where `has_conf_extension(file)`.
pub open spec fn stem(file: Seq<char>) -> Seq<char> {
    file.take(file.len() - conf_suffix().len())
}

/// The configuration that the file at `path` holds, if its name says that it
/// holds one.
pub open spec fn config_name_of(path: Seq<char>) -> Option<Seq<char>> {
    if has_conf_extension(file_name(path)) {
        Some(stem(file_name(path)))
    } else {
        None
    }
}

/// `file_name(path)` is the part of `path` from `start` on, where `start`
/// follows the last `/` of `path`, or is 0 if `path` has none.
pub proof fn lemma_file_name_from(path: Seq<char>, start: int)
    requires
        0 <= start <= path.len(),
        start == 0 || path[start - 1] == '/',
        forall|k: int| start <= k < path.len() ==> path[k] != '/',
    ensures
        file_name(path) == path.subrange(start, path.len() as int),
    decreases path.len() - start,
{
    if start < path.len() {
        let shorter = path.drop_last();
        lemma_file_name_from(shorter, start);
        assert(shorter.subrange(start, shorter.len() as int).push(path.last())
            =~= path.subrange(start, path.len() as int));
    }
}

/// The last component of a path holds no `/`.
pub proof fn lemma_file_name_has_no_slash(path: Seq<char>)
    ensures
        !file_name(path).contains('/'),
    decreases path.len(),
{
    if path.len() > 0 && path.last() != '/' {
        let before = file_name(path.drop_last());
        lemma_file_name_has_no_slash(path.drop_last());
        assert forall|k: int| 0 <= k < before.len() implies before[k] != '/' by {
            assert(before.contains(before[k]));
        }
    }
}

/// A path made of a directory, a `/` and a file name names that file.
pub proof fn lemma_file_name_of_joined(dir: Seq<char>, file: Seq<char>)
    requires
        !file.contains('/'),
    ensures
        file_name(dir + seq!['/'] + file) == file,
{
    let path = dir + seq!['/'] + file;
    let start = dir.len() + 1;
    assert forall|k: int| start <= k < path.len() implies path[k] != '/' by {
        assert(file.contains(file[k - start]));
    }
    lemma_file_name_from(path, start as int);
    assert(path.subrange(start as int, path.len() as int) =~= file);
}

/// A file holds the configuration `name` exactly if it is called `name`
/// followed by `.conf`, and `name` is not empty.
pub proof fn lemma_config_name_of(path: Seq<char>, name: Seq<char>)
    ensures
        config_name_of(path) == Some(name) <==> name.len() > 0 && file_name(path) == name
            + conf_suffix(),
{
    reveal_strlit(".conf");
    let file = file_name(path);
    if config_name_of(path) == Some(name) {
        assert(file =~= stem(file) + file.skip(file.len() - 5));
    }
    if name.len() > 0 && file == name + conf_suffix() {
        assert(file.skip(file.len() - 5) =~= conf_suffix());
        assert(stem(file) =~= name);
    }
}

/// The name of the configuration that the file at `path` holds: the last
/// component of `path` without its `.conf`, or `None` if that component does
/// not end in `.conf` or is nothing but `.conf`.
pub fn config_name(path: &str) -> (name: Option<String>)
    ensures
        name.deep_view() == config_name_of(path@),
{
    proof {
        reveal_strlit(".conf");
    }
    let len: usize = path.unicode_len();
    let mut seen: usize = 0;
    let mut start: usize = 0;
    for c in chars: path.chars()
        invariant
            chars.seq() == path@,
            len == path@.len(),
            seen == chars.index(),
            start <= seen,
            start == 0 || path@[start - 1] == '/',
            forall|k: int| start <= k < seen ==> path@[k] != '/',
    {
        seen = seen + 1;
        if c == '/' {
            start = seen;
        }
    }
    proof {
        lemma_file_name_from(path@, start as int);
    }
    if len - start <= 5 {
        return None;
    }
    let dot: usize = len - 5;
    if path.get_char(dot) == '.' && path.get_char(dot + 1) == 'c' && path.get_char(dot + 2) == 'o'
        && path.get_char(dot + 3) == 'n' && path.get_char(dot + 4) == 'f' {
        let name = path.substring_char(start, dot);
        proof {
            let file = file_name(path@);
            assert(file.skip(file.len() - 5) =~= conf_suffix());
        }
        Some(String::from_str(name))
    } else {
        proof {
            let file = file_name(path@);
            let tail = file.skip(file.len() - 5);
            assert(tail[0] == path@[dot as int]);
            assert(tail[1] == path@[dot + 1]);
            assert(tail[2] == path@[dot + 2]);
            assert(tail[3] == path@[dot + 3]);
            assert(tail[4] == path@[dot + 4]);
        }
        None
    }
}

} // verus!
