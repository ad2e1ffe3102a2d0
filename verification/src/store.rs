//! The configuration store: one file per tunnel in one directory. The host
//! enumerates, reads and writes; what to make of a directory entry, where a
//! configuration lives and whether a text is written at all is decided here.

use crate::gui::WireGui;
use crate::names::{conf_suffix, config_name, config_name_of, file_name, lemma_config_name_of,
    lemma_file_name_has_no_slash, lemma_file_name_of_joined};
use vstd::prelude::*;

verus! {

/// One entry of the configuration directory, as the host found it.
#[derive(Clone, Debug, PartialEq, Eq)]
pub struct DirEntry {
    /// The entry's path, or just its file name.
    pub path: String,
    /// Whether the entry is a regular file (after following links).
    pub is_file: bool,
}

/// What came of reading a configuration file.
#[derive(Clone, Debug, PartialEq, Eq)]
pub enum ReadOutcome {
    /// The file was read; this is its whole text.
    Content(String),
    /// There is no such file.
    NotFound,
    /// The file is there but could not be read, or is not text.
    Failed,
}

/// A text to be written to a file, replacing what the file held.
#[derive(Clone, Debug, PartialEq, Eq)]
pub struct WriteRequest {
    /// The file to create or truncate.
    pub path: String,
    /// The text to write, verbatim.
    pub data: String,
}

/// A [`WriteRequest`] as mathematical values.
pub struct WriteRequestView {
    pub path: Seq<char>,
    pub data: Seq<char>,
}

impl View for WriteRequest {
    type V = WriteRequestView;

    open spec fn view(&self) -> WriteRequestView {
        WriteRequestView { path: self.path@, data: self.data@ }
    }
}

/// The directory that holds the configurations.
pub open spec fn config_dir() -> Seq<char> {
    "/etc/wireguard"@
}

/// The file that holds the configuration `name`.
pub open spec fn config_path(name: Seq<char>) -> Seq<char> {
    config_dir() + seq!['/'] + name + conf_suffix()
}

/// A single line break: the text that the editor widget of the user
/// interface reports while its buffer is empty. It is never written to a
/// file. (An editor that the library itself has emptied holds the empty
/// text, which is written like any other.)
pub open spec fn blank() -> Seq<char> {
    seq!['\n']
}

/// Whether `name` can be that of a listed configuration: it is not empty and
/// holds no `/`, so that its file lies in the configuration directory itself.
pub open spec fn plain(name: Seq<char>) -> bool {
    name.len() > 0 && !name.contains('/')
}

/// The configuration that `entry` holds: regular files named `<name>.conf`
/// hold `<name>`, everything else holds none.
pub open spec fn entry_name(entry: DirEntry) -> Option<Seq<char>> {
    if entry.is_file {
        config_name_of(entry.path@)
    } else {
        None
    }
}

/// [`entry_name`] as a function value.
pub open spec fn namer() -> spec_fn(DirEntry) -> Option<Seq<char>> {
    |entry: DirEntry| entry_name(entry)
}

/// The configurations among `entries`, in the order of `entries`.
pub open spec fn listing(entries: Seq<DirEntry>) -> Seq<Seq<char>> {
    entries.filter_map(namer())
}

/// What is written for a save of `data` under `name`: nothing if `data` is
/// [`blank`], else `data` to the file of `name`.
pub open spec fn write_plan(name: Seq<char>, data: Seq<char>) -> Option<WriteRequestView> {
    if data == blank() {
        None
    } else {
        Some(WriteRequestView { path: config_path(name), data })
    }
}

impl ReadOutcome {
    /// The text that a read with this outcome stands for: the file's text,
    /// or the empty text if there was none to be had.
    pub open spec fn text(self) -> Seq<char> {
        match self {
            ReadOutcome::Content(text) => text@,
            ReadOutcome::NotFound => Seq::empty(),
            ReadOutcome::Failed => Seq::empty(),
        }
    }
}

/// A file that is missing or cannot be read stands for the empty text.
pub proof fn lemma_nothing_read_is_empty(outcome: ReadOutcome)
    requires
        outcome !is Content,
    ensures
        outcome.text() == Seq::<char>::empty(),
{
}

/// What is written under a name is what is read back under it. For every
/// text but the lone line break, the write goes to the file of the name and
/// carries the text; so a read of that file which finds what the write
/// carried gives the text itself.
pub proof fn lemma_write_then_read(name: Seq<char>, text: Seq<char>, found: ReadOutcome)
    requires
        text != blank(),
        write_plan(name, text) matches Some(request) && found matches ReadOutcome::Content(kept)
            && kept@ == request.data,
    ensures
        write_plan(name, text) matches Some(request) && request.path == config_path(name),
        found.text() == text,
{
}

/// The lone line break is written under no name: the file keeps what it
/// has.
pub proof fn lemma_blank_is_not_written(name: Seq<char>)
    ensures
        write_plan(name, blank()) is None,
{
}

/// Different configurations live in different files.
pub proof fn lemma_config_path_injective(a: Seq<char>, b: Seq<char>)
    requires
        config_path(a) == config_path(b),
    ensures
        a == b,
{
    reveal_strlit(".conf");
    let head = config_dir() + seq!['/'];
    let pa = head + a + conf_suffix();
    let pb = head + b + conf_suffix();
    assert(pa.len() == head.len() + a.len() + 5);
    assert(pb.len() == head.len() + b.len() + 5);
    assert(a =~= pa.subrange(head.len() as int, (head.len() + a.len()) as int));
    assert(b =~= pb.subrange(head.len() as int, (head.len() + b.len()) as int));
}

/// The file of a configuration holds that configuration: a regular file at
/// `config_path(name)` is listed as `name`, for every plain name.
pub proof fn lemma_config_path_is_listed(name: Seq<char>)
    requires
        plain(name),
    ensures
        config_name_of(config_path(name)) == Some(name),
{
    reveal_strlit(".conf");
    let file = name + conf_suffix();
    assert forall|k: int| 0 <= k < file.len() implies file[k] != '/' by {
        if k < name.len() {
            assert(name.contains(name[k]));
        }
    }
    lemma_file_name_of_joined(config_dir(), file);
    assert(config_path(name) =~= config_dir() + seq!['/'] + file);
    lemma_config_name_of(config_path(name), name);
}

/// A name is listed exactly if one of the entries is a regular file called
/// that name followed by `.conf`, and the name is not empty.
pub proof fn lemma_listing_contains(entries: Seq<DirEntry>, name: Seq<char>)
    ensures
        listing(entries).contains(name) <==> name.len() > 0 && exists|i: int|
            0 <= i < entries.len() && (#[trigger] entries[i]).is_file && file_name(
                entries[i].path@,
            ) == name + conf_suffix(),
    decreases entries.len(),
{
    let holds = |entry: DirEntry|
        entry.is_file && file_name(entry.path@) == name + conf_suffix();
    assert forall|entry: DirEntry| entry_name(entry) == Some(name) <==> name.len() > 0 && holds(
        entry,
    ) by {
        lemma_config_name_of(entry.path@, name);
    }
    if entries.len() > 0 {
        let before = entries.drop_last();
        let last = entries.last();
        lemma_listing_contains(before, name);
        let tail = match entry_name(last) {
            Some(found) => seq![found],
            None => Seq::empty(),
        };
        assert(listing(entries) == listing(before) + tail);
        if listing(entries).contains(name) {
            let k = choose|k: int| 0 <= k < listing(entries).len() && listing(entries)[k] == name;
            if k < listing(before).len() {
                assert(listing(before)[k] == name);
                let i = choose|i: int| 0 <= i < before.len() && holds(#[trigger] before[i]);
                assert(holds(entries[i]));
            } else {
                assert(holds(entries[entries.len() - 1]));
            }
        }
        if name.len() > 0 && exists|i: int| 0 <= i < entries.len() && holds(#[trigger] entries[i]) {
            let i = choose|i: int| 0 <= i < entries.len() && holds(#[trigger] entries[i]);
            if i < before.len() {
                assert(holds(before[i]));
                let k = choose|k: int| 0 <= k < listing(before).len() && listing(before)[k] == name;
                assert(listing(entries)[k] == name);
            } else {
                assert(listing(entries)[listing(before).len() as int] == name);
            }
        }
    }
}

/// A regular file at the path of a plain name puts that name in the list:
/// what has been saved under such a name is found by the next refresh.
pub proof fn lemma_file_of_name_is_listed(entries: Seq<DirEntry>, name: Seq<char>, i: int)
    requires
        plain(name),
        0 <= i < entries.len(),
        entries[i].is_file,
        entries[i].path@ == config_path(name),
    ensures
        listing(entries).contains(name),
{
    lemma_config_path_is_listed(name);
    lemma_config_name_of(config_path(name), name);
    lemma_listing_contains(entries, name);
}

/// No name is listed twice, where no two regular files among the entries
/// share a file name, as in the enumeration of one directory.
pub proof fn lemma_listing_has_no_duplicates(entries: Seq<DirEntry>)
    requires
        forall|i: int, j: int|
            #![trigger entries[i], entries[j]]
            0 <= i < j < entries.len() && entries[i].is_file && entries[j].is_file ==> file_name(
                entries[i].path@,
            ) != file_name(entries[j].path@),
    ensures
        listing(entries).no_duplicates(),
    decreases entries.len(),
{
    if entries.len() > 0 {
        let before = entries.drop_last();
        let last = entries.last();
        assert forall|i: int, j: int|
            #![trigger before[i], before[j]]
            0 <= i < j < before.len() && before[i].is_file && before[j].is_file implies file_name(
            before[i].path@,
        ) != file_name(before[j].path@) by {
            assert(before[i] == entries[i] && before[j] == entries[j]);
        }
        lemma_listing_has_no_duplicates(before);
        match entry_name(last) {
            Some(name) => {
                assert(listing(entries) == listing(before) + seq![name]);
                lemma_config_name_of(last.path@, name);
                lemma_listing_contains(before, name);
                if listing(before).contains(name) {
                    let i = choose|i: int|
                        0 <= i < before.len() && (#[trigger] before[i]).is_file && file_name(
                            before[i].path@,
                        ) == name + conf_suffix();
                    assert(entries[i] == before[i]);
                    assert(entries[entries.len() - 1] == last);
                    assert(false);
                }
                assert forall|a: int, b: int|
                    0 <= a < listing(entries).len() && 0 <= b < listing(entries).len() && a
                        != b implies listing(entries)[a] != listing(entries)[b] by {
                    if a < listing(before).len() && b < listing(before).len() {
                        assert(listing(before)[a] != listing(before)[b]);
                    } else if a < listing(before).len() {
                        assert(listing(before).contains(listing(before)[a]));
                    } else {
                        assert(listing(before).contains(listing(before)[b]));
                    }
                }
            },
            None => {
                assert(listing(entries) == listing(before));
            },
        }
    }
}

/// Every listed name is plain.
pub proof fn lemma_listed_names_are_plain(entries: Seq<DirEntry>)
    ensures
        forall|k: int| 0 <= k < listing(entries).len() ==> plain(#[trigger] listing(entries)[k]),
{
    assert forall|k: int| 0 <= k < listing(entries).len() implies plain(
        #[trigger] listing(entries)[k],
    ) by {
        let name = listing(entries)[k];
        assert(listing(entries).contains(name));
        lemma_listing_contains(entries, name);
        let i = choose|i: int|
            0 <= i < entries.len() && (#[trigger] entries[i]).is_file && file_name(
                entries[i].path@,
            ) == name + conf_suffix();
        let file = file_name(entries[i].path@);
        lemma_file_name_has_no_slash(entries[i].path@);
        assert forall|j: int| 0 <= j < name.len() implies name[j] != '/' by {
            assert(file.contains(file[j]));
        }
    }
}

impl WireGui {
    /// The directory to enumerate for [`WireGui::list_configs`].
    pub fn config_dir() -> (dir: String)
        ensures
            dir@ == config_dir(),
    {
        String::from_str("/etc/wireguard")
    }

    /// The file to read or write for the configuration `name`.
    pub fn config_path(name: &str) -> (path: String)
        ensures
            path@ == config_path(name@),
    {
        proof {
            reveal_strlit("/");
        }
        let mut path = String::from_str("/etc/wireguard");
        path.append("/");
        path.append(name);
        path.append(".conf");
        assert("/"@ =~= seq!['/']);
        path
    }

    /// The names of the configurations among the entries of the
    /// configuration directory, in the order of the entries. Where the
    /// directory could not be enumerated, the host passes no entries.
    pub fn list_configs(entries: &Vec<DirEntry>) -> (names: Vec<String>)
        ensures
            names.deep_view() == listing(entries@),
    {
        let mut names: Vec<String> = Vec::new();
        let mut i: usize = 0;
        while i < entries.len()
            invariant
                i <= entries.len(),
                names.deep_view() == listing(entries@.take(i as int)),
            decreases entries.len() - i,
        {
            let ghost before = names.deep_view();
            if entries[i].is_file {
                match config_name(entries[i].path.as_str()) {
                    Some(name) => {
                        names.push(name);
                        assert(names.deep_view() =~= before + seq![name@]);
                    },
                    None => {},
                }
            }
            proof {
                entries@.lemma_filter_map_take_succ(namer(), i as int);
            }
            i = i + 1;
        }
        assert(entries@.take(i as int) =~= entries@);
        names
    }

    /// The text that the editor shows for a read with the given outcome: the
    /// file's text, or nothing where the file is missing or unreadable.
    pub fn read_config(outcome: ReadOutcome) -> (text: String)
        ensures
            text@ == outcome.text(),
    {
        match outcome {
            ReadOutcome::Content(text) => text,
            ReadOutcome::NotFound => String::new(),
            ReadOutcome::Failed => String::new(),
        }
    }

    /// What to write for a save of `data` under `name`. A text that is just
    /// one line break is what the editor widget reports while its buffer is
    /// empty: it is not written, so that the file keeps what it has.
    pub fn write_config(name: String, data: String) -> (request: Option<WriteRequest>)
        ensures
            match request {
                Some(request) => write_plan(name@, data@) == Some(request@),
                None => write_plan(name@, data@) is None,
            },
    {
        proof {
            reveal_strlit("\n");
        }
        let line_break = String::from_str("\n");
        assert(line_break@ =~= blank());
        if data == line_break {
            None
        } else {
            let path = Self::config_path(name.as_str());
            Some(WriteRequest { path, data })
        }
    }
}

} // verus!
