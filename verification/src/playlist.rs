use vstd::prelude::*;

use crate::app_state::PopupObject;
use crate::audio_file::AudioFileInfo;

verus! {

/// What opening one file of the command line gave: its entry, or its path where it failed.
pub enum LoadOutcome {
    Loaded(AudioFileInfo),
    Failed(String),
}

/// The entries of the files that opened, in order.
pub open spec fn spec_loaded(outs: Seq<LoadOutcome>) -> Seq<AudioFileInfo>
    decreases outs.len(),
{
    if outs.len() == 0 {
        seq![]
    } else {
        let rest = spec_loaded(outs.drop_last());
        match outs.last() {
            LoadOutcome::Loaded(info) => rest.push(info),
            LoadOutcome::Failed(_) => rest,
        }
    }
}

/// The paths of the files that failed, in order.
pub open spec fn spec_failed(outs: Seq<LoadOutcome>) -> Seq<Seq<char>>
    decreases outs.len(),
{
    if outs.len() == 0 {
        seq![]
    } else {
        let rest = spec_failed(outs.drop_last());
        match outs.last() {
            LoadOutcome::Loaded(_) => rest,
            LoadOutcome::Failed(p) => rest.push(p@),
        }
    }
}

/// Splits the outcomes into the entries that opened and the paths that failed, keeping their
/// order.
pub fn categorize_into_two(outcomes: Vec<LoadOutcome>) -> (r: (Vec<AudioFileInfo>, Vec<String>))
    ensures
        r.0@ == spec_loaded(outcomes@),
        r.1@.map_values(|s: String| s@) == spec_failed(outcomes@),
{
    let ghost all = outcomes@;
    let mut rest = outcomes;
    let mut loaded: Vec<AudioFileInfo> = Vec::new();
    let mut failed: Vec<String> = Vec::new();
    let mut i: usize = 0;
    let n = rest.len();
    assert(all.take(0) =~= seq![]);
    assert(all.skip(0) =~= all);
    while rest.len() > 0
        invariant
            i <= n,
            n == all.len(),
            i + rest@.len() == n,
            rest@ == all.skip(i as int),
            loaded@ == spec_loaded(all.take(i as int)),
            failed@.map_values(|s: String| s@) == spec_failed(all.take(i as int)),
        decreases rest@.len(),
    {
        let ghost before_failed = failed@;
        let o = rest.remove(0);
        assert(all.take(i + 1).drop_last() =~= all.take(i as int));
        assert(all.take(i + 1).last() == all[i as int]);
        assert(o == all[i as int]);
        match o {
            LoadOutcome::Loaded(info) => {
                loaded.push(info);
            },
            LoadOutcome::Failed(p) => {
                failed.push(p);
                assert(failed@.map_values(|s: String| s@) =~= before_failed.map_values(
                    |s: String| s@,
                ).push(failed@.last()@));
            },
        }
        assert(rest@ =~= all.skip(i + 1));
        i = i + 1;
    }
    assert(all.take(i as int) =~= all);
    (loaded, failed)
}

/// The texts of `strs` joined with `sep` between each two.
pub open spec fn spec_join(strs: Seq<Seq<char>>, sep: Seq<char>) -> Seq<char>
    decreases strs.len(),
{
    if strs.len() == 0 {
        seq![]
    } else if strs.len() == 1 {
        strs[0]
    } else {
        spec_join(strs.drop_last(), sep) + sep + strs.last()
    }
}

/// Joins the strings with newlines between them.
pub fn join_lines(strs: &Vec<String>) -> (r: String)
    ensures
        r@ == spec_join(strs@.map_values(|s: String| s@), seq!['\n']),
{
    let ghost v = strs@.map_values(|s: String| s@);
    let mut r = String::new();
    let mut i: usize = 0;
    proof {
        reveal_strlit("\n");
    }
    assert("\n"@ =~= seq!['\n']);
    assert(v.take(0) =~= seq![]);
    while i < strs.len()
        invariant
            i <= strs@.len(),
            v == strs@.map_values(|s: String| s@),
            r@ == spec_join(v.take(i as int), seq!['\n']),
        decreases strs@.len() - i,
    {
        assert(v.take(i + 1).drop_last() =~= v.take(i as int));
        assert(v.take(i + 1).last() == strs@[i as int]@);
        let ghost prev = r@;
        if i != 0 {
            proof {
                reveal_strlit("\n");
            }
            assert("\n"@ =~= seq!['\n']);
            r.append("\n");
            r.append(strs[i].as_str());
            assert(v.take(i + 1).len() >= 2);
            assert(r@ =~= prev + seq!['\n'] + strs@[i as int]@);
        } else {
            assert(v.take(1) =~= seq![strs@[0]@]);
            r.append(strs[i].as_str());
            assert(r@ =~= strs@[0]@);
        }
        i = i + 1;
    }
    assert(v.take(strs@.len() as int) =~= v);
    r
}

/// The message box that lists the files that could not be opened, where there are any.
pub fn load_error_popup(errors: &Vec<String>) -> (r: Option<PopupObject>)
    ensures
        errors@.len() == 0 ==> r is None,
        errors@.len() > 0 ==> (r matches Some(p) && p.title@ == "error"@ && p.button_name@
            == "OK"@ && p.message@ == "an error occurred during loading file: \n"@ + spec_join(
            errors@.map_values(|s: String| s@),
            seq!['\n'],
        )),
{
    if errors.len() == 0 {
        return None;
    }
    let error_paths = join_lines(errors);
    let mut message = "an error occurred during loading file: \n".to_owned();
    message.append(error_paths.as_str());
    Some(PopupObject { title: "error".to_owned(), message, button_name: "OK".to_owned() })
}

/// The play list of the files that opened, and the message box for those that did not.
pub fn validate_audio_file_and_create_audio_file_info_list(outcomes: Vec<LoadOutcome>) -> (r: (
    Vec<AudioFileInfo>,
    Option<PopupObject>,
))
    ensures
        r.0@ == spec_loaded(outcomes@),
        spec_failed(outcomes@).len() == 0 ==> r.1 is None,
        spec_failed(outcomes@).len() > 0 ==> (r.1 matches Some(p) && p.title@ == "error"@
            && p.button_name@ == "OK"@ && p.message@
            == "an error occurred during loading file: \n"@ + spec_join(
            spec_failed(outcomes@),
            seq!['\n'],
        )),
{
    let (play_list, error_list) = categorize_into_two(outcomes);
    let popup = load_error_popup(&error_list);
    (play_list, popup)
}

} // verus!
