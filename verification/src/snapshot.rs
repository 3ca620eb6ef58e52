use vstd::prelude::*;

use crate::editor_config::{locale_key, preset_key, EditorKeymapPreset, EditorLocale};
use crate::export::ExportProfile;
use crate::text::{owned, push_str};

verus! {

broadcast use vstd::string::group_string_axioms;

/// The stable key of a keymap preset, as the snapshot stores it.
pub fn encode_keymap_preset(preset: EditorKeymapPreset) -> (r: String)
    ensures
        r@ == preset_key(preset),
{
    owned(preset.key())
}

/// The stable key of a locale, as the snapshot stores it.
pub fn encode_locale(locale: EditorLocale) -> (r: String)
    ensures
        r@ == locale_key(locale),
{
    owned(locale.key())
}

/// The export targets that are switched on, in order.
pub open spec fn enabled_targets(ps: Seq<ExportProfile>) -> Seq<ExportProfile>
    decreases ps.len(),
{
    if ps.len() == 0 {
        Seq::empty()
    } else if ps.last().enabled {
        enabled_targets(ps.drop_last()).push(ps.last())
    } else {
        enabled_targets(ps.drop_last())
    }
}

/// The names joined with `, ` between them.
pub open spec fn join_names(names: Seq<Seq<char>>) -> Seq<char>
    decreases names.len(),
{
    if names.len() == 0 {
        Seq::empty()
    } else if names.len() == 1 {
        names[0]
    } else {
        join_names(names.drop_last()) + ", "@ + names.last()
    }
}

/// How the enabled export targets are summed up: none, the one target by name, up to three
/// by name, or only their number.
#[derive(Debug, Clone, PartialEq, Eq)]
pub enum TargetSummary {
    NoneEnabled,
    One { name: String },
    Few { count: usize, names: String },
    Many { count: usize },
}

/// How the outputs of the enabled export targets are summed up: none, the one path, or
/// their number.
#[derive(Debug, Clone, PartialEq, Eq)]
pub enum OutputSummary {
    NoneEnabled,
    One { path: String },
    Many { count: usize },
}

/// The summary of the enabled targets of `ps`.
pub open spec fn target_summary_holds(ps: Seq<ExportProfile>, r: TargetSummary) -> bool {
    let e = enabled_targets(ps);
    if e.len() == 0 {
        r == TargetSummary::NoneEnabled
    } else if e.len() == 1 {
        r matches TargetSummary::One { name } && name@ == e[0].name@
    } else if e.len() <= 3 {
        r matches TargetSummary::Few { count, names } && count == e.len() && names@ == join_names(
            e.map_values(|p: ExportProfile| p.name@),
        )
    } else {
        r == TargetSummary::Many { count: e.len() as usize }
    }
}

/// The summary of the outputs of the enabled targets of `ps`.
pub open spec fn output_summary_holds(ps: Seq<ExportProfile>, r: OutputSummary) -> bool {
    let e = enabled_targets(ps);
    if e.len() == 0 {
        r == OutputSummary::NoneEnabled
    } else if e.len() == 1 {
        r matches OutputSummary::One { path } && path@ == e[0].output_path@
    } else {
        r == OutputSummary::Many { count: e.len() as usize }
    }
}

/// The positions of the enabled targets of `ps`.
fn enabled_positions(ps: &Vec<ExportProfile>) -> (r: Vec<usize>)
    ensures
        r@.len() == enabled_targets(ps@).len(),
        forall|i: int| 0 <= i < r@.len() ==> #[trigger] r@[i] < ps@.len() && ps@[r@[i] as int]
            == enabled_targets(ps@)[i],
{
    let mut out: Vec<usize> = Vec::new();
    let mut k: usize = 0;
    while k < ps.len()
        invariant
            k <= ps.len(),
            out@.len() == enabled_targets(ps@.take(k as int)).len(),
            forall|i: int| 0 <= i < out@.len() ==> #[trigger] out@[i] < k && ps@[out@[i] as int]
                == enabled_targets(ps@.take(k as int))[i],
        decreases ps.len() - k,
    {
        assert(ps@.take(k + 1).drop_last() =~= ps@.take(k as int));
        assert(ps@.take(k + 1).last() == ps@[k as int]);
        if ps[k].enabled {
            out.push(k);
        }
        k = k + 1;
    }
    assert(ps@.take(ps.len() as int) =~= ps@);
    out
}

/// Sums up the enabled export targets by name.
pub fn export_targets_summary(ps: &Vec<ExportProfile>) -> (r: TargetSummary)
    ensures
        target_summary_holds(ps@, r),
{
    let pos = enabled_positions(ps);
    let ghost e = enabled_targets(ps@);
    if pos.len() == 0 {
        TargetSummary::NoneEnabled
    } else if pos.len() == 1 {
        TargetSummary::One { name: ps[pos[0]].name.clone() }
    } else if pos.len() <= 3 {
        let ghost names = e.map_values(|p: ExportProfile| p.name@);
        let mut joined = ps[pos[0]].name.clone();
        let mut i: usize = 1;
        assert(names.take(1).drop_last() =~= Seq::<Seq<char>>::empty());
        while i < pos.len()
            invariant
                1 <= i <= pos.len(),
                pos@.len() == e.len(),
                names == e.map_values(|p: ExportProfile| p.name@),
                forall|j: int| 0 <= j < pos@.len() ==> #[trigger] pos@[j] < ps@.len() && ps@[pos@[j] as int] == e[j],
                joined@ == join_names(names.take(i as int)),
            decreases pos.len() - i,
        {
            let ghost before = joined@;
            push_str(&mut joined, ", ");
            push_str(&mut joined, ps[pos[i]].name.as_str());
            proof {
                let t = names.take(i + 1);
                assert(t.drop_last() =~= names.take(i as int));
                assert(t.last() == e[i as int].name@);
                assert(joined@ =~= join_names(t));
            }
            i = i + 1;
        }
        assert(names.take(pos.len() as int) =~= names);
        TargetSummary::Few { count: pos.len(), names: joined }
    } else {
        TargetSummary::Many { count: pos.len() }
    }
}

/// Sums up where the enabled export targets write.
pub fn export_outputs_summary(ps: &Vec<ExportProfile>) -> (r: OutputSummary)
    ensures
        output_summary_holds(ps@, r),
{
    let pos = enabled_positions(ps);
    if pos.len() == 0 {
        OutputSummary::NoneEnabled
    } else if pos.len() == 1 {
        OutputSummary::One { path: ps[pos[0]].output_path.clone() }
    } else {
        OutputSummary::Many { count: pos.len() }
    }
}

} // verus!
