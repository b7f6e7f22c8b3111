use vstd::prelude::*;

use crate::content_map::{is_relevant, relevant};
use crate::reader::{content_of, ReadPlan};
use crate::scan::{entry_action_spec, Depth, EntryAction, EntryKind};
use crate::text::has_suffix;

verus! {

/// A directory whose entries are all named otherwise than `*.pdf` or
/// `*.csv` scans to the empty map, whatever the files hold.
pub proof fn lemma_no_pdf_or_csv_scans_empty(found: Map<Seq<char>, Seq<char>>)
    requires
        forall|k: Seq<char>|
            #[trigger] found.contains_key(k) ==> !has_suffix(k, ".pdf"@) && !has_suffix(
                k,
                ".csv"@,
            ),
    ensures
        relevant(found) == Map::<Seq<char>, Seq<char>>::empty(),
{
    assert(relevant(found) =~= Map::<Seq<char>, Seq<char>>::empty());
}

/// Every entry that a scan reports has text, and a key ending in `.pdf` or
/// `.csv`; each is reported with the text it was found with.
pub proof fn lemma_scan_reports_only_relevant(found: Map<Seq<char>, Seq<char>>)
    ensures
        forall|k: Seq<char>| #[trigger]
            relevant(found).contains_key(k) ==> found.contains_key(k) && relevant(found)[k]
                == found[k] && is_relevant(k, found[k]),
        forall|k: Seq<char>|
            found.contains_key(k) && is_relevant(k, found[k]) ==> #[trigger] relevant(
                found,
            ).contains_key(k),
{
}

/// Exactly one level below the target is scanned. A top-level scan scans
/// each subdirectory as a nested scan and adds what that reports, and a
/// nested scan passes over its own subdirectories, so nothing two levels
/// down is reached. Of the files directly in the directory (`found`) and
/// those one level down (`sub_found`, as the nested scan read them), each
/// is reported under its bare name exactly when its text is not empty and
/// its name ends in `.pdf` or `.csv`; where a name is in both places, a
/// relevant file one level down wins.
pub proof fn lemma_one_level_down(
    found: Map<Seq<char>, Seq<char>>,
    sub_found: Map<Seq<char>, Seq<char>>,
)
    ensures
        entry_action_spec(EntryKind::Directory, Depth::TopLevel) == EntryAction::ScanNested,
        entry_action_spec(EntryKind::Directory, Depth::Nested) == EntryAction::Skip,
        forall|k: Seq<char>|
            sub_found.contains_key(k) && is_relevant(k, sub_found[k]) ==> {
                &&& #[trigger] relevant(found.union_prefer_right(relevant(sub_found))).contains_key(k)
                &&& relevant(found.union_prefer_right(relevant(sub_found)))[k] == sub_found[k]
            },
        forall|k: Seq<char>|
            sub_found.contains_key(k) && !found.contains_key(k) ==> (#[trigger] relevant(
                found.union_prefer_right(relevant(sub_found)),
            ).contains_key(k) <==> is_relevant(k, sub_found[k])),
        forall|k: Seq<char>|
            found.contains_key(k) && !sub_found.contains_key(k) ==> {
                &&& (#[trigger] relevant(found.union_prefer_right(relevant(sub_found))).contains_key(
                    k,
                ) <==> is_relevant(k, found[k]))
                &&& is_relevant(k, found[k]) ==> relevant(
                    found.union_prefer_right(relevant(sub_found)),
                )[k] == found[k]
            },
{
}

/// A file named with the upper-case suffix `.PDF` never appears in a scan's
/// result, whatever was read from it: the suffix test is case-sensitive.
pub proof fn lemma_upper_case_pdf_is_dropped(found: Map<Seq<char>, Seq<char>>, key: Seq<char>)
    requires
        has_suffix(key, ".PDF"@),
    ensures
        !relevant(found).contains_key(key),
{
    reveal_strlit(".PDF");
    reveal_strlit(".pdf");
    reveal_strlit(".csv");
    let n = key.len();
    assert(key.subrange(n - 4, n as int)[3] == 'F');
}

/// A file whose read failed has the empty text, and is left out of the
/// scan's result, whatever its name and however it was to be read.
pub proof fn lemma_failed_read_is_dropped(
    found: Map<Seq<char>, Seq<char>>,
    key: Seq<char>,
    plan: ReadPlan,
)
    ensures
        content_of(plan, None) == Seq::<char>::empty(),
        !relevant(found.insert(key, content_of(plan, None))).contains_key(key),
{
}

} // verus!
