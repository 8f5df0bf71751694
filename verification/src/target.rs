use vstd::prelude::*;
use vstd::string::*;

verus! {

/// Where a chosen value is written.
#[derive(Debug, PartialEq, Eq)]
pub enum ChangeFile {
    /// The file named `file` in every directory that matches `pattern`.
    Glob { pattern: String, file: String },
    /// The one file at `path`.
    Path { path: String },
}

/// What expanding a glob pattern gave.
#[derive(Debug, PartialEq, Eq)]
pub enum Expansion {
    /// The pattern does not compile.
    Invalid,
    /// One entry for each match, in the order of enumeration. An entry is
    /// `None` where a path matched so far but could not be read.
    Matches(Vec<Option<String>>),
}

/// [`ChangeFile`] as a mathematical value.
pub enum ChangeFileView {
    Glob { pattern: Seq<char>, file: Seq<char> },
    Path { path: Seq<char> },
}

impl View for ChangeFile {
    type V = ChangeFileView;

    open spec fn view(&self) -> ChangeFileView {
        match self {
            ChangeFile::Glob { pattern, file } => ChangeFileView::Glob {
                pattern: pattern@,
                file: file@,
            },
            ChangeFile::Path { path } => ChangeFileView::Path { path: path@ },
        }
    }
}

impl View for Expansion {
    type V = Option<Seq<Option<Seq<char>>>>;

    open spec fn view(&self) -> Option<Seq<Option<Seq<char>>>> {
        match self {
            Expansion::Invalid => None,
            Expansion::Matches(entries) => Some(entries.deep_view()),
        }
    }
}

/// The path of the file named `file` inside the directory `dir`.
pub open spec fn file_in(dir: Seq<char>, file: Seq<char>) -> Seq<char> {
    dir.push('/') + file
}

/// The entries that could be read, in their order.
pub open spec fn readable(entries: Seq<Option<Seq<char>>>) -> Seq<Seq<char>>
    decreases entries.len(),
{
    if entries.len() == 0 {
        Seq::<Seq<char>>::empty()
    } else {
        let head = readable(entries.drop_last());
        match entries.last() {
            Some(dir) => head.push(dir),
            None => head,
        }
    }
}

/// The files to write for the matched directories `dirs`.
pub open spec fn files_in(dirs: Seq<Seq<char>>, file: Seq<char>) -> Seq<Seq<char>> {
    Seq::new(dirs.len(), |i: int| file_in(dirs[i], file))
}

impl ChangeFile {
    /// The pattern to expand before anything can be written, if there is one.
    pub open spec fn spec_pattern(&self) -> Option<Seq<char>> {
        match self {
            ChangeFile::Glob { pattern, .. } => Some(pattern@),
            ChangeFile::Path { .. } => None,
        }
    }

    /// The files to write, in the order of writing, given the entries that
    /// expanding the pattern gave. A single path needs no entries.
    pub open spec fn spec_targets(&self, entries: Seq<Option<Seq<char>>>) -> Seq<Seq<char>> {
        match self {
            ChangeFile::Glob { file, .. } => files_in(readable(entries), file@),
            ChangeFile::Path { path } => seq![path@],
        }
    }

    /// The pattern to expand before anything can be written, if there is one.
    pub fn pattern(&self) -> (found: Option<String>)
        ensures
            found is Some <==> self.spec_pattern() is Some,
            found matches Some(p) ==> p@ == self.spec_pattern()->0,
    {
        match self {
            ChangeFile::Glob { pattern, .. } => Some(pattern.clone()),
            ChangeFile::Path { .. } => None,
        }
    }

    /// The files to write, in the order of writing.
    pub fn resolve_targets(&self, entries: &Vec<Option<String>>) -> (paths: Vec<String>)
        ensures
            paths.deep_view() == self.spec_targets(entries.deep_view()),
    {
        match self {
            ChangeFile::Glob { file, .. } => {
                let mut paths: Vec<String> = Vec::new();
                let mut i: usize = 0;
                assert(entries.deep_view().take(0) =~= Seq::<Option<Seq<char>>>::empty());
                assert(paths.deep_view() =~= files_in(Seq::<Seq<char>>::empty(), file@));
                while i < entries.len()
                    invariant
                        i <= entries.len(),
                        paths.deep_view() == files_in(
                            readable(entries.deep_view().take(i as int)),
                            file@,
                        ),
                    decreases entries.len() - i,
                {
                    let ghost seen = entries.deep_view().take(i as int);
                    let ghost next = entries.deep_view().take(i + 1);
                    let ghost done = paths.deep_view();
                    assert(next.drop_last() =~= seen);
                    assert(next.last() == entries.deep_view()[i as int]);
                    match &entries[i] {
                        Some(dir) => {
                            let path = join_file(dir.as_str(), file.as_str());
                            paths.push(path);
                            assert(paths.deep_view() =~= done.push(file_in(dir@, file@)));
                            assert(done.push(file_in(dir@, file@)) =~= files_in(
                                readable(seen).push(dir@),
                                file@,
                            ));
                        },
                        None => {},
                    }
                    i += 1;
                }
                assert(entries.deep_view().take(i as int) =~= entries.deep_view());
                paths
            },
            ChangeFile::Path { path } => {
                let mut paths: Vec<String> = Vec::new();
                paths.push(path.clone());
                assert(paths.deep_view() =~= seq![path@]);
                paths
            },
        }
    }
}

/// The path of the file named `file` inside the directory `dir`.
pub fn join_file(dir: &str, file: &str) -> (path: String)
    ensures
        path@ == file_in(dir@, file@),
{
    let mut path = String::from_str(dir);
    proof {
        reveal_strlit("/");
    }
    path.append("/");
    path.append(file);
    assert(path@ =~= file_in(dir@, file@));
    path
}

} // verus!
