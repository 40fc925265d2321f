//! What a directory walk yields, and which of it the indexer keeps.
use std::path::PathBuf;
use vstd::prelude::*;

verus! {

/// Size in bytes and modification time (seconds since the epoch) of a file.
#[derive(Clone, Copy, Debug)]
pub struct FileStat {
    pub size: u64,
    pub mtime: i64,
}

/// One item of a recursive directory walk.
#[derive(Debug)]
pub enum WalkItem {
    /// The walk could not read this entry.
    Unreadable,
    /// An entry of the tree: its path, whether it is a regular file, and its
    /// size and modification time where they could be read.
    Entry { path: PathBuf, is_file: bool, stat: Option<FileStat> },
}

/// A regular file found by the walk, with the size and modification time
/// recorded for it.
#[derive(Debug)]
pub struct FoundFile {
    pub path: PathBuf,
    pub size: u64,
    pub mtime: i64,
}

/// The file that a walk item stands for: only regular files count; where the
/// size and modification time could not be read, both are recorded as zero.
pub open spec fn spec_found_file(item: WalkItem) -> Option<FoundFile> {
    match item {
        WalkItem::Entry { path, is_file, stat } => {
            if is_file {
                match stat {
                    Some(s) => Some(FoundFile { path, size: s.size, mtime: s.mtime }),
                    None => Some(FoundFile { path, size: 0, mtime: 0 }),
                }
            } else {
                None
            }
        },
        WalkItem::Unreadable => None,
    }
}

/// The paths of the regular files among `items`, in walk order.
pub open spec fn file_paths(items: Seq<WalkItem>) -> Seq<PathBuf>
    decreases items.len(),
{
    if items.len() == 0 {
        Seq::empty()
    } else {
        let rest = file_paths(items.drop_last());
        match items.last() {
            WalkItem::Entry { path, is_file, stat } => if is_file {
                rest.push(path)
            } else {
                rest
            },
            WalkItem::Unreadable => rest,
        }
    }
}

/// Turns one walk item into the file it reports, if it reports one.
pub fn found_file(item: WalkItem) -> (r: Option<FoundFile>)
    ensures
        r == spec_found_file(item),
{
    match item {
        WalkItem::Entry { path, is_file, stat } => {
            if is_file {
                match stat {
                    Some(s) => Some(FoundFile { path, size: s.size, mtime: s.mtime }),
                    None => Some(FoundFile { path, size: 0, mtime: 0 }),
                }
            } else {
                None
            }
        },
        WalkItem::Unreadable => None,
    }
}

/// The paths of all regular files of a walk, in the order the walk gave them;
/// unreadable entries and everything that is not a regular file are left out.
pub fn collect_files(items: Vec<WalkItem>) -> (r: Vec<PathBuf>)
    ensures
        r@ == file_paths(items@),
{
    let ghost all = items@;
    let mut result: Vec<PathBuf> = Vec::new();
    for item in it: items.into_iter()
        invariant
            it.seq() == all,
            result@ == file_paths(all.take(it.index() as int)),
    {
        let ghost i = it.index() as int;
        proof {
            assert(all.take(i + 1).drop_last() =~= all.take(i));
        }
        match item {
            WalkItem::Entry { path, is_file, stat } => {
                if is_file {
                    result.push(path);
                }
            },
            WalkItem::Unreadable => {},
        }
    }
    proof {
        assert(all.take(all.len() as int) =~= all);
    }
    result
}

/// Whether a walk item is a regular file.
pub open spec fn is_regular_file(item: WalkItem) -> bool {
    item is Entry && item->is_file
}

/// Every regular file of the walk is reported, with its own path, and with its
/// size and modification time where they could be read (zero where not),
/// whatever its size; nothing else is reported.
pub proof fn lemma_every_file_reported(item: WalkItem)
    ensures
        is_regular_file(item) ==> spec_found_file(item) is Some,
        !is_regular_file(item) ==> spec_found_file(item) is None,
        is_regular_file(item) ==> ({
            let f = spec_found_file(item)->0;
            &&& f.path == item->path
            &&& f.size == (match item->stat {
                Some(st) => st.size,
                None => 0,
            })
            &&& f.mtime == (match item->stat {
                Some(st) => st.mtime,
                None => 0,
            })
        }),
{
}

/// The collected paths are exactly the paths of the regular files of the
/// walk, each once, in walk order, whatever their size or modification time.
pub proof fn lemma_collect_keeps_every_file(items: Seq<WalkItem>)
    ensures
        file_paths(items) == items.filter(|it: WalkItem| is_regular_file(it)).map_values(
            |it: WalkItem| it->path,
        ),
    decreases items.len(),
{
    reveal_with_fuel(Seq::filter, 1);
    let pred = |it: WalkItem| is_regular_file(it);
    let get = |it: WalkItem| it->path;
    if items.len() > 0 {
        lemma_collect_keeps_every_file(items.drop_last());
        let sub = items.drop_last().filter(pred);
        if pred(items.last()) {
            assert(sub.push(items.last()).map_values(get) =~= sub.map_values(get).push(
                items.last()->path,
            ));
        }
    } else {
        assert(items.filter(pred).map_values(get) =~= Seq::<PathBuf>::empty());
    }
}

} // verus!
