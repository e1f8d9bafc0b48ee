//! Path expansion and the gathering of per-file results into a batch.
use vstd::prelude::*;
use crate::exiftool::{error_text, CleanResult, ToolError};
use crate::paths::{is_supported_file, supported_path};
use crate::record::MetadataInfo;
use crate::text::{push_text, texts};

verus! {

/// What the file system holds at one path a caller named.
#[derive(Debug, Clone)]
pub enum PathEntry {
    /// A regular file.
    File(String),
    /// A directory, with the regular files of its walk in walk order; links
    /// are not followed, so no file behind a link is among them.
    Directory(Vec<String>),
    /// Anything else: missing, or a special file.
    Other,
}

/// The eligible paths among `s`, in order.
pub open spec fn supported_only(s: Seq<Seq<char>>) -> Seq<Seq<char>>
    decreases s.len(),
{
    if s.len() == 0 {
        Seq::empty()
    } else {
        let p = supported_only(s.drop_last());
        if supported_path(s.last()) { p.push(s.last()) } else { p }
    }
}

/// The files that one named path contributes.
pub open spec fn entry_files(e: PathEntry) -> Seq<Seq<char>> {
    match e {
        PathEntry::File(p) => supported_only(seq![p@]),
        PathEntry::Directory(files) => supported_only(texts(files@)),
        PathEntry::Other => Seq::empty(),
    }
}

/// The files that a list of named paths expands to, in order.
pub open spec fn expansion(entries: Seq<PathEntry>) -> Seq<Seq<char>>
    decreases entries.len(),
{
    if entries.len() == 0 {
        Seq::empty()
    } else {
        expansion(entries.drop_last()) + entry_files(entries.last())
    }
}

fn keep_supported(out: &mut Vec<String>, files: &Vec<String>)
    ensures
        texts(final(out)@) == texts(old(out)@) + supported_only(texts(files@)),
{
    let ghost start = texts(out@);
    let mut i: usize = 0;
    while i < files.len()
        invariant
            i <= files@.len(),
            texts(out@) == start + supported_only(texts(files@).take(i as int)),
        decreases files.len() - i,
    {
        assert(texts(files@).take(i + 1).drop_last() =~= texts(files@).take(i as int));
        assert(texts(files@).take(i + 1).last() == files@[i as int]@);
        let ghost before = texts(out@);
        if is_supported_file(files[i].as_str()) {
            push_text(out, files[i].as_str());
        }
        assert(texts(out@) =~= start + supported_only(texts(files@).take(i + 1)));
        i = i + 1;
    }
    assert(texts(files@).take(i as int) =~= texts(files@));
}

/// Expands named paths into the eligible files they stand for: a file is kept
/// when its extension is on the allow-list, a directory gives the eligible
/// files of its walk, and anything else gives nothing.
pub fn expand_paths(entries: &Vec<PathEntry>) -> (r: Vec<String>)
    ensures
        texts(r@) == expansion(entries@),
{
    let mut out: Vec<String> = Vec::new();
    let mut i: usize = 0;
    while i < entries.len()
        invariant
            i <= entries@.len(),
            texts(out@) == expansion(entries@.take(i as int)),
        decreases entries.len() - i,
    {
        assert(entries@.take(i + 1).drop_last() =~= entries@.take(i as int));
        match &entries[i] {
            PathEntry::File(p) => {
                let ghost before = texts(out@);
                if is_supported_file(p.as_str()) {
                    push_text(&mut out, p.as_str());
                }
                assert(seq![p@].drop_last() =~= Seq::<Seq<char>>::empty());
                assert(supported_only(Seq::<Seq<char>>::empty()) == Seq::<Seq<char>>::empty());
                assert(texts(out@) =~= before + supported_only(seq![p@]));
            },
            PathEntry::Directory(files) => {
                keep_supported(&mut out, files);
            },
            PathEntry::Other => {
                assert(texts(out@) =~= texts(out@) + Seq::<Seq<char>>::empty());
            },
        }
        i = i + 1;
    }
    assert(entries@.take(i as int) =~= entries@);
    out
}

proof fn lemma_supported_only_sound(s: Seq<Seq<char>>)
    ensures
        forall|i: int| 0 <= i < supported_only(s).len() ==> supported_path(#[trigger] supported_only(s)[i]),
    decreases s.len(),
{
    if s.len() > 0 {
        lemma_supported_only_sound(s.drop_last());
        let p = supported_only(s.drop_last());
        assert forall|i: int| 0 <= i < supported_only(s).len() implies supported_path(#[trigger] supported_only(s)[i]) by {
            if supported_path(s.last()) {
                assert(supported_only(s) == p.push(s.last()));
                if i < p.len() {
                    assert(supported_only(s)[i] == p[i]);
                }
            }
        }
    }
}

proof fn lemma_supported_only_keeps(s: Seq<Seq<char>>)
    requires
        forall|i: int| 0 <= i < s.len() ==> supported_path(#[trigger] s[i]),
    ensures
        supported_only(s) == s,
    decreases s.len(),
{
    if s.len() > 0 {
        lemma_supported_only_keeps(s.drop_last());
        assert(s.drop_last().push(s.last()) =~= s);
    }
}

/// Every file an expansion yields is eligible: its extension, case-folded, is
/// on the allow-list; and an eligible plain file named directly is kept.
pub proof fn lemma_expansion_supported(entries: Seq<PathEntry>)
    ensures
        forall|i: int| 0 <= i < expansion(entries).len() ==> supported_path(#[trigger] expansion(entries)[i]),
        forall|p: String| #[trigger] expansion(seq![PathEntry::File(p)]) == (if supported_path(p@) { seq![p@] } else { Seq::empty() }),
    decreases entries.len(),
{
    if entries.len() > 0 {
        lemma_expansion_supported(entries.drop_last());
        lemma_supported_only_sound(entry_files(entries.last()));
        let a = expansion(entries.drop_last());
        let b = entry_files(entries.last());
        match entries.last() {
            PathEntry::File(p) => lemma_supported_only_sound(seq![p@]),
            PathEntry::Directory(files) => lemma_supported_only_sound(texts(files@)),
            PathEntry::Other => {},
        }
        assert forall|i: int| 0 <= i < (a + b).len() implies supported_path(#[trigger] (a + b)[i]) by {
            if i >= a.len() {
                assert((a + b)[i] == b[i - a.len()]);
            }
        }
    }
    assert forall|p: String| #[trigger] expansion(seq![PathEntry::File(p)]) == (if supported_path(p@) { seq![p@] } else { Seq::empty() }) by {
        let e = seq![PathEntry::File(p)];
        assert(e.drop_last() =~= Seq::<PathEntry>::empty());
        assert(seq![p@].drop_last() =~= Seq::<Seq<char>>::empty());
        assert(expansion(Seq::<PathEntry>::empty()) == Seq::<Seq<char>>::empty());
        assert(supported_only(Seq::<Seq<char>>::empty()) == Seq::<Seq<char>>::empty());
        assert(e.last() == PathEntry::File(p));
        assert(expansion(e) =~= (if supported_path(p@) { seq![p@] } else { Seq::empty() }));
    }
}

/// Each path named as a plain file.
pub open spec fn as_files(paths: Seq<String>) -> Seq<PathEntry> {
    paths.map_values(|p: String| PathEntry::File(p))
}

proof fn lemma_files_expand_to_supported(paths: Seq<String>)
    ensures
        expansion(as_files(paths)) == supported_only(texts(paths)),
    decreases paths.len(),
{
    if paths.len() > 0 {
        let p = paths.last();
        lemma_files_expand_to_supported(paths.drop_last());
        assert(as_files(paths).drop_last() =~= as_files(paths.drop_last()));
        assert(texts(paths).drop_last() =~= texts(paths.drop_last()));
        assert(seq![p@].drop_last() =~= Seq::<Seq<char>>::empty());
        let s = supported_only(texts(paths.drop_last()));
        assert(supported_only(Seq::<Seq<char>>::empty()) == Seq::<Seq<char>>::empty());
        assert(texts(paths).last() == p@);
        assert(as_files(paths).last() == PathEntry::File(p));
        assert(s + supported_only(seq![p@]) =~= supported_only(texts(paths)));
    } else {
        assert(texts(paths) =~= Seq::<Seq<char>>::empty());
    }
}

/// Expanding the files of an earlier expansion again, each named as a plain
/// file, gives back the same files: expansion is idempotent on its output.
pub proof fn lemma_expansion_idempotent(entries: Seq<PathEntry>, files: Seq<String>)
    requires
        texts(files) == expansion(entries),
    ensures
        expansion(as_files(files)) == texts(files),
{
    lemma_expansion_supported(entries);
    lemma_files_expand_to_supported(files);
    lemma_supported_only_keeps(texts(files));
}

/// Whether a per-file result counts as a failure in a batch.
pub open spec fn result_failed(r: Result<CleanResult, ToolError>) -> bool {
    match r {
        Ok(c) => !c.success,
        Err(_) => true,
    }
}

/// The batch entry owed for one file: the outcome as the adapter gave it, or
/// for an adapter error an unsuccessful outcome carrying the error's text,
/// with the file itself as output path.
pub open spec fn batch_entry(c: CleanResult, path: Seq<char>, r: Result<CleanResult, ToolError>) -> bool {
    match r {
        Ok(x) => {
            &&& c.success == x.success
            &&& c.file_path@ == x.file_path@
            &&& c.output_path@ == x.output_path@
            &&& c.message@ == x.message@
        },
        Err(e) => {
            &&& !c.success
            &&& c.file_path@ == path
            &&& c.output_path@ == path
            &&& c.message@ == error_text(e)
        },
    }
}

/// The batch entry of one file.
pub fn batch_outcome(file_path: &str, r: Result<CleanResult, ToolError>) -> (c: CleanResult)
    ensures
        batch_entry(c, file_path@, r),
{
    match r {
        Ok(x) => x,
        Err(e) => CleanResult {
            success: false,
            file_path: String::from_str(file_path),
            output_path: String::from_str(file_path),
            message: e.message(),
        },
    }
}

/// Gathers the per-file results of a clean batch, one entry per file and in
/// the files' order; no failure of one file affects another's entry.
pub fn collect_clean_results(paths: &Vec<String>, results: Vec<Result<CleanResult, ToolError>>) -> (r: Vec<CleanResult>)
    requires
        paths@.len() == results@.len(),
    ensures
        r@.len() == paths@.len(),
        forall|i: int| 0 <= i < r@.len() ==> batch_entry(#[trigger] r@[i], paths@[i]@, results@[i]),
{
    let ghost all = results@;
    let n = results.len();
    let mut rest = results;
    let mut out: Vec<CleanResult> = Vec::new();
    let mut i: usize = 0;
    while rest.len() > 0
        invariant
            all.len() == n,
            i <= paths@.len(),
            paths@.len() == all.len(),
            rest@ == all.subrange(i as int, all.len() as int),
            out@.len() == i,
            forall|k: int| 0 <= k < i ==> batch_entry(#[trigger] out@[k], paths@[k]@, all[k]),
        decreases rest.len(),
    {
        let r = rest.remove(0);
        out.push(batch_outcome(paths[i].as_str(), r));
        i = i + 1;
        assert(rest@ =~= all.subrange(i as int, all.len() as int));
    }
    out
}

/// The records among the results of a read batch, in order; a file whose
/// read failed has no entry.
pub open spec fn ok_records(rs: Seq<Result<MetadataInfo, ToolError>>) -> Seq<MetadataInfo>
    decreases rs.len(),
{
    if rs.len() == 0 {
        Seq::empty()
    } else {
        let p = ok_records(rs.drop_last());
        match rs.last() {
            Ok(m) => p.push(m),
            Err(_) => p,
        }
    }
}

/// Gathers the records of a read batch, leaving out files whose read failed.
pub fn collect_records(results: Vec<Result<MetadataInfo, ToolError>>) -> (r: Vec<MetadataInfo>)
    ensures
        r@ == ok_records(results@),
{
    let ghost all = results@;
    let n = results.len();
    let mut rest = results;
    let mut out: Vec<MetadataInfo> = Vec::new();
    let mut i: usize = 0;
    while rest.len() > 0
        invariant
            all.len() == n,
            i <= all.len(),
            rest@ == all.subrange(i as int, all.len() as int),
            out@ == ok_records(all.take(i as int)),
        decreases rest.len(),
    {
        assert(all.take(i + 1).drop_last() =~= all.take(i as int));
        assert(all.take(i + 1).last() == rest@[0]);
        let r = rest.remove(0);
        match r {
            Ok(m) => out.push(m),
            Err(_) => {},
        }
        i = i + 1;
        assert(rest@ =~= all.subrange(i as int, all.len() as int));
    }
    assert(all.take(i as int) =~= all);
    out
}

/// The number of unsuccessful outcomes.
pub open spec fn failures(s: Seq<CleanResult>) -> nat
    decreases s.len(),
{
    if s.len() == 0 {
        0
    } else {
        failures(s.drop_last()) + if s.last().success { 0nat } else { 1nat }
    }
}

/// The number of per-file results that failed.
pub open spec fn failed_results(rs: Seq<Result<CleanResult, ToolError>>) -> nat
    decreases rs.len(),
{
    if rs.len() == 0 {
        0
    } else {
        failed_results(rs.drop_last()) + if result_failed(rs.last()) { 1nat } else { 0nat }
    }
}

/// A clean batch over N files of which K failed gives N outcomes, exactly K
/// of them unsuccessful.
pub proof fn lemma_batch_counts(
    outcomes: Seq<CleanResult>,
    paths: Seq<String>,
    results: Seq<Result<CleanResult, ToolError>>,
)
    requires
        outcomes.len() == paths.len(),
        paths.len() == results.len(),
        forall|i: int| 0 <= i < outcomes.len() ==> batch_entry(#[trigger] outcomes[i], paths[i]@, results[i]),
    ensures
        outcomes.len() == results.len(),
        failures(outcomes) == failed_results(results),
        outcomes.len() - failures(outcomes) == results.len() - failed_results(results),
    decreases outcomes.len(),
{
    if outcomes.len() > 0 {
        let n = outcomes.len() - 1;
        assert(batch_entry(outcomes[n], paths[n]@, results[n]));
        lemma_batch_counts(outcomes.drop_last(), paths.drop_last(), results.drop_last());
    }
}

} // verus!
