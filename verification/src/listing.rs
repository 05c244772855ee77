use vstd::prelude::*;
use crate::errors::{CmdError, ErrorKind};
use crate::text::{is_suffix_of, str_ends_with};

verus! {

/// One immediate entry of a directory, as the shell hands it over:
/// the bare file name, and the path to report for it.
pub struct FileEntry {
    pub name: String,
    pub path: String,
}

pub open spec fn yml_suffix() -> Seq<char> {
    seq!['.', 'y', 'm', 'l']
}

pub open spec fn yaml_suffix() -> Seq<char> {
    seq!['.', 'y', 'a', 'm', 'l']
}

/// The listing rule: a name is selected when it ends with `.yml` or
/// `.yaml`, case-sensitively.
pub open spec fn is_yaml_name(name: Seq<char>) -> bool {
    is_suffix_of(yml_suffix(), name) || is_suffix_of(yaml_suffix(), name)
}

/// The paths of the selected entries, in the order the entries came.
pub open spec fn yaml_paths(entries: Seq<FileEntry>) -> Seq<Seq<char>>
    decreases entries.len(),
{
    if entries.len() == 0 {
        Seq::empty()
    } else {
        let rest = yaml_paths(entries.drop_last());
        if is_yaml_name(entries.last().name@) {
            rest.push(entries.last().path@)
        } else {
            rest
        }
    }
}

/// Does the listing rule select this name?
pub fn name_is_yaml(name: &str) -> (r: bool)
    ensures
        r == is_yaml_name(name@),
{
    let yml = str_ends_with(name, ".yml");
    let yaml = str_ends_with(name, ".yaml");
    proof {
        reveal_strlit(".yml");
        reveal_strlit(".yaml");
        assert(".yml"@ =~= yml_suffix());
        assert(".yaml"@ =~= yaml_suffix());
    }
    yml || yaml
}

/// The computing half of the directory listing: from the entries a
/// directory walk produced, the paths whose names the rule selects,
/// in the walk's order, duplicated only as often as they came.
pub fn select_yaml_paths(entries: &Vec<FileEntry>) -> (r: Vec<String>)
    ensures
        r.deep_view() == yaml_paths(entries@),
{
    let mut out: Vec<String> = Vec::new();
    let mut i: usize = 0;
    while i < entries.len()
        invariant
            i <= entries@.len(),
            out.deep_view() == yaml_paths(entries@.take(i as int)),
        decreases entries@.len() - i,
    {
        let ghost prev = out.deep_view();
        if name_is_yaml(entries[i].name.as_str()) {
            out.push(entries[i].path.clone());
            proof {
                assert(out.deep_view() =~= prev.push(entries@[i as int].path@));
            }
        }
        i += 1;
        proof {
            let t = entries@.take(i as int);
            assert(t.drop_last() =~= entries@.take(i - 1));
            assert(t.last() == entries@[i - 1]);
            assert(out.deep_view() == yaml_paths(t));
        }
    }
    proof {
        assert(entries@.take(entries@.len() as int) =~= entries@);
    }
    out
}

/// `p` is the path of some entry whose name the listing rule selects.
pub open spec fn path_of_selected_entry(entries: Seq<FileEntry>, p: Seq<char>) -> bool {
    exists|j: int|
        0 <= j < entries.len() && is_yaml_name(#[trigger] entries[j].name@)
            && entries[j].path@ == p
}

/// Law: the selection is exact. Every selected path is the path of an
/// entry whose name the rule selects, and the path of every such entry
/// is selected. Nothing else — in particular nothing from inside
/// subdirectories, which are never among the entries handed in — can
/// appear in the result.
pub proof fn lemma_yaml_paths_exact(entries: Seq<FileEntry>)
    ensures
        forall|i: int|
            0 <= i < yaml_paths(entries).len() ==> path_of_selected_entry(
                entries,
                #[trigger] yaml_paths(entries)[i],
            ),
        forall|j: int|
            0 <= j < entries.len() && is_yaml_name(#[trigger] entries[j].name@)
                ==> yaml_paths(entries).contains(entries[j].path@),
    decreases entries.len(),
{
    if entries.len() == 0 {
        assert(yaml_paths(entries).len() == 0);
    } else {
        let prefix = entries.drop_last();
        lemma_yaml_paths_exact(prefix);
        let last = entries.last();
        assert forall|i: int| 0 <= i < yaml_paths(entries).len() implies path_of_selected_entry(
            entries,
            #[trigger] yaml_paths(entries)[i],
        ) by {
            if i < yaml_paths(prefix).len() {
                let pi = yaml_paths(prefix)[i];
                assert(path_of_selected_entry(prefix, pi));
                let j0 = choose|j0: int|
                    0 <= j0 < prefix.len() && is_yaml_name(#[trigger] prefix[j0].name@)
                        && prefix[j0].path@ == pi;
                assert(entries[j0] == prefix[j0]);
                assert(yaml_paths(entries)[i] == pi);
                assert(path_of_selected_entry(entries, pi));
            } else {
                let j0 = entries.len() - 1;
                assert(is_yaml_name(last.name@));
                assert(yaml_paths(entries)[i] == entries[j0].path@);
                assert(path_of_selected_entry(entries, entries[j0].path@));
            }
        }
        assert forall|j: int|
            0 <= j < entries.len() && is_yaml_name(#[trigger] entries[j].name@)
                implies yaml_paths(entries).contains(entries[j].path@) by {
            if j < entries.len() - 1 {
                assert(prefix[j] == entries[j]);
                assert(yaml_paths(prefix).contains(prefix[j].path@));
                let i0 = choose|i0: int|
                    0 <= i0 < yaml_paths(prefix).len()
                        && yaml_paths(prefix)[i0] == prefix[j].path@;
                assert(yaml_paths(entries)[i0] == entries[j].path@);
            } else {
                let i0 = yaml_paths(entries).len() - 1;
                assert(yaml_paths(entries)[i0] == entries[j].path@);
            }
        }
    }
}

/// The whole listing operation, over what the shell observed: either
/// the directory's entries, or the OS error text from opening the
/// directory or from a failing entry mid-walk (in which case partial
/// results were discarded before this point).
pub fn list_dir_result(outcome: Result<Vec<FileEntry>, String>) -> (r: Result<
    Vec<String>,
    CmdError,
>)
    ensures
        (outcome matches Ok(entries) ==> (r matches Ok(paths) && paths.deep_view()
            == yaml_paths(entries@))),
        (outcome matches Err(m) ==> (r matches Err(e) && e.kind == ErrorKind::IoError
            && e.message == m)),
{
    match outcome {
        Ok(entries) => Ok(select_yaml_paths(&entries)),
        Err(m) => Err(CmdError::io_error(m)),
    }
}

} // verus!
