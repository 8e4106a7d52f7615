//! The cone classifier: partitions the host's ordered (label, tagged value)
//! pairs into typed cone descriptors by label-prefix rules applied in a
//! fixed priority order, skipping type-mismatched entries silently and
//! reporting unrecognized labels as non-fatal diagnostics.

use vstd::prelude::*;
use crate::scalar::{entries_model, ScalarModel, TaggedValue};
use crate::strutil::{first_is, first_two_are, spec_first_is, spec_first_two_are};

verus! {

/// One typed cone descriptor.  The power-cone exponent is an opaque real
/// number carried as its bit pattern.
#[derive(Debug, Clone, Copy, PartialEq, Eq, Structural)]
pub enum ConeDescriptor {
    Zero(usize),
    Nonnegative(usize),
    SecondOrder(usize),
    Exponential,
    Power(u64),
    PsdTriangle(usize),
}

/// Whether a label matches none of the cone prefixes, in which case the
/// entry contributes nothing and a diagnostic is owed.
pub open spec fn entry_unknown(label: Seq<char>) -> bool {
    &&& !spec_first_is(label, 'z')
    &&& !spec_first_is(label, 'l')
    &&& !spec_first_is(label, 'q')
    &&& !spec_first_two_are(label, 'e', 'p')
    &&& !spec_first_is(label, 's')
    &&& !spec_first_is(label, 'p')
}

/// The descriptors contributed by one (label, value) entry, under the
/// prefix rules in their fixed priority order: `z`, `l`, `q`, `ep`, `s`,
/// `p`, first match wins.  An entry whose value has the wrong runtime type
/// for its matched rule, or a negative count or dimension, contributes
/// nothing.  An `ep` entry with count `k` contributes `k` exponential
/// cones; every other matched entry contributes exactly one descriptor.
pub open spec fn entry_cones(label: Seq<char>, v: ScalarModel) -> Seq<ConeDescriptor> {
    if spec_first_is(label, 'z') {
        match v {
            ScalarModel::Int(d) => if d >= 0 {
                seq![ConeDescriptor::Zero(d as usize)]
            } else {
                Seq::empty()
            },
            _ => Seq::empty(),
        }
    } else if spec_first_is(label, 'l') {
        match v {
            ScalarModel::Int(d) => if d >= 0 {
                seq![ConeDescriptor::Nonnegative(d as usize)]
            } else {
                Seq::empty()
            },
            _ => Seq::empty(),
        }
    } else if spec_first_is(label, 'q') {
        match v {
            ScalarModel::Int(d) => if d >= 0 {
                seq![ConeDescriptor::SecondOrder(d as usize)]
            } else {
                Seq::empty()
            },
            _ => Seq::empty(),
        }
    } else if spec_first_two_are(label, 'e', 'p') {
        match v {
            ScalarModel::Int(k) => if k >= 0 {
                Seq::new(k as nat, |j: int| ConeDescriptor::Exponential)
            } else {
                Seq::empty()
            },
            _ => Seq::empty(),
        }
    } else if spec_first_is(label, 's') {
        match v {
            ScalarModel::Int(d) => if d >= 0 {
                seq![ConeDescriptor::PsdTriangle(d as usize)]
            } else {
                Seq::empty()
            },
            _ => Seq::empty(),
        }
    } else if spec_first_is(label, 'p') {
        match v {
            ScalarModel::Real(bits) => seq![ConeDescriptor::Power(bits)],
            _ => Seq::empty(),
        }
    } else {
        Seq::empty()
    }
}

/// The full cone sequence of an entry list: the concatenation, in entry
/// order, of each entry's contribution.
pub open spec fn cones_of(entries: Seq<(Seq<char>, ScalarModel)>) -> Seq<ConeDescriptor>
    decreases entries.len(),
{
    if entries.len() == 0 {
        Seq::empty()
    } else {
        entry_cones(entries[0].0, entries[0].1) + cones_of(entries.drop_first())
    }
}

/// The labels of an entry list that match no cone prefix, in entry order:
/// one diagnostic is owed for each.
pub open spec fn unknown_labels(entries: Seq<(Seq<char>, ScalarModel)>) -> Seq<Seq<char>>
    decreases entries.len(),
{
    if entries.len() == 0 {
        Seq::empty()
    } else {
        let rest = unknown_labels(entries.drop_first());
        if entry_unknown(entries[0].0) {
            seq![entries[0].0] + rest
        } else {
            rest
        }
    }
}

proof fn lemma_cones_of_snoc(entries: Seq<(Seq<char>, ScalarModel)>, e: (Seq<char>, ScalarModel))
    ensures
        cones_of(entries.push(e)) == cones_of(entries) + entry_cones(e.0, e.1),
    decreases entries.len(),
{
    assert(entries.push(e)[0] == if entries.len() == 0 {
        e
    } else {
        entries[0]
    });
    if entries.len() == 0 {
        reveal_with_fuel(cones_of, 3);
        assert(entries.push(e).drop_first() =~= Seq::<(Seq<char>, ScalarModel)>::empty());
        assert(cones_of(entries.push(e)) =~= cones_of(entries) + entry_cones(e.0, e.1));
    } else {
        assert(entries.push(e).drop_first() =~= entries.drop_first().push(e));
        lemma_cones_of_snoc(entries.drop_first(), e);
        assert(cones_of(entries.push(e)) =~= cones_of(entries) + entry_cones(e.0, e.1));
    }
}

proof fn lemma_unknown_labels_snoc(
    entries: Seq<(Seq<char>, ScalarModel)>,
    e: (Seq<char>, ScalarModel),
)
    ensures
        unknown_labels(entries.push(e)) == unknown_labels(entries) + (if entry_unknown(e.0) {
            seq![e.0]
        } else {
            Seq::<Seq<char>>::empty()
        }),
    decreases entries.len(),
{
    let tail = if entry_unknown(e.0) {
        seq![e.0]
    } else {
        Seq::<Seq<char>>::empty()
    };
    assert(entries.push(e)[0] == if entries.len() == 0 {
        e
    } else {
        entries[0]
    });
    if entries.len() == 0 {
        reveal_with_fuel(unknown_labels, 3);
        assert(entries.push(e).drop_first() =~= Seq::<(Seq<char>, ScalarModel)>::empty());
        assert(unknown_labels(entries.push(e)) =~= unknown_labels(entries) + tail);
    } else {
        assert(entries.push(e).drop_first() =~= entries.drop_first().push(e));
        lemma_unknown_labels_snoc(entries.drop_first(), e);
        assert(unknown_labels(entries.push(e)) =~= unknown_labels(entries) + tail);
    }
}

/// Law: an entry whose label begins with `ep` and whose value is an
/// integer count `k >= 0` contributes exactly `k` exponential-cone
/// descriptors and nothing else; for `k == 0` it contributes none.
pub proof fn lemma_exponential_entry_count(label: Seq<char>, k: i32)
    requires
        spec_first_two_are(label, 'e', 'p'),
        k >= 0,
    ensures
        entry_cones(label, ScalarModel::Int(k)).len() == k,
        forall|j: int|
            0 <= j < k ==> entry_cones(label, ScalarModel::Int(k))[j]
                == ConeDescriptor::Exponential,
{
}

/// Law: an entry whose label matches no cone prefix contributes no
/// descriptors — the cone sequence is exactly the one of the list with the
/// entry removed — and its label appears among the diagnostics, which grow
/// by exactly one.
pub proof fn lemma_unknown_entry_skipped(entries: Seq<(Seq<char>, ScalarModel)>, i: int)
    requires
        0 <= i < entries.len(),
        entry_unknown(entries[i].0),
    ensures
        cones_of(entries) == cones_of(entries.remove(i)),
        unknown_labels(entries).contains(entries[i].0),
        unknown_labels(entries).len() == unknown_labels(entries.remove(i)).len() + 1,
    decreases entries.len(),
{
    if i == 0 {
        assert(entries.remove(0) =~= entries.drop_first());
        assert(entry_cones(entries[0].0, entries[0].1) =~= Seq::<ConeDescriptor>::empty());
        assert(cones_of(entries) =~= cones_of(entries.drop_first()));
        assert(unknown_labels(entries)[0] == entries[0].0);
    } else {
        let rest = entries.drop_first();
        lemma_unknown_entry_skipped(rest, i - 1);
        assert(entries.remove(i).drop_first() =~= rest.remove(i - 1));
        assert(entries.remove(i)[0] == entries[0]);
        assert(rest[i - 1] == entries[i]);
        assert(cones_of(entries) =~= cones_of(entries.remove(i)));
        let tail = unknown_labels(rest);
        assert(tail.contains(entries[i].0));
        if entry_unknown(entries[0].0) {
            let idx = choose|j: int| 0 <= j < tail.len() && tail[j] == entries[i].0;
            assert(unknown_labels(entries)[idx + 1] == entries[i].0);
        }
    }
}

/// The character sequences of a list of owned labels.
pub open spec fn labels_view(ss: Seq<String>) -> Seq<Seq<char>> {
    ss.map_values(|s: String| s@)
}

/// Classifies the host's cone specification: returns the ordered cone
/// descriptors and, as diagnostics, the labels that matched no rule.
pub fn classify_cones(entries: &Vec<(String, TaggedValue)>) -> (r: (
    Vec<ConeDescriptor>,
    Vec<String>,
))
    ensures
        r.0@ == cones_of(entries_model(entries@)),
        labels_view(r.1@) == unknown_labels(entries_model(entries@)),
{
    let ghost em = entries_model(entries@);
    let mut cones: Vec<ConeDescriptor> = Vec::new();
    let mut unknown: Vec<String> = Vec::new();
    let mut i: usize = 0;
    while i < entries.len()
        invariant
            i <= entries.len(),
            em == entries_model(entries@),
            em.len() == entries@.len(),
            cones@ == cones_of(em.take(i as int)),
            labels_view(unknown@) == unknown_labels(em.take(i as int)),
        decreases entries.len() - i,
    {
        proof {
            assert(em[i as int] == (entries@[i as int].0@, entries@[i as int].1@));
            assert(em.take(i + 1) =~= em.take(i as int).push(em[i as int]));
            lemma_cones_of_snoc(em.take(i as int), em[i as int]);
            lemma_unknown_labels_snoc(em.take(i as int), em[i as int]);
        }
        let label: &String = &entries[i].0;
        let value: &TaggedValue = &entries[i].1;
        if first_is(label.as_str(), 'z') {
            match value {
                TaggedValue::Int(d) => {
                    if *d >= 0 {
                        cones.push(ConeDescriptor::Zero(*d as usize));
                    }
                },
                _ => {},
            }
        } else if first_is(label.as_str(), 'l') {
            match value {
                TaggedValue::Int(d) => {
                    if *d >= 0 {
                        cones.push(ConeDescriptor::Nonnegative(*d as usize));
                    }
                },
                _ => {},
            }
        } else if first_is(label.as_str(), 'q') {
            match value {
                TaggedValue::Int(d) => {
                    if *d >= 0 {
                        cones.push(ConeDescriptor::SecondOrder(*d as usize));
                    }
                },
                _ => {},
            }
        } else if first_two_are(label.as_str(), 'e', 'p') {
            match value {
                TaggedValue::Int(k) => {
                    if *k >= 0 {
                        let count = *k as usize;
                        let ghost before = cones@;
                        let mut j: usize = 0;
                        while j < count
                            invariant
                                j <= count,
                                cones@ == before + Seq::new(
                                    j as nat,
                                    |t: int| ConeDescriptor::Exponential,
                                ),
                            decreases count - j,
                        {
                            cones.push(ConeDescriptor::Exponential);
                            proof {
                                assert(cones@ =~= before + Seq::new(
                                    (j + 1) as nat,
                                    |t: int| ConeDescriptor::Exponential,
                                ));
                            }
                            j = j + 1;
                        }
                    }
                },
                _ => {},
            }
        } else if first_is(label.as_str(), 's') {
            match value {
                TaggedValue::Int(d) => {
                    if *d >= 0 {
                        cones.push(ConeDescriptor::PsdTriangle(*d as usize));
                    }
                },
                _ => {},
            }
        } else if first_is(label.as_str(), 'p') {
            match value {
                TaggedValue::Real(bits) => {
                    cones.push(ConeDescriptor::Power(*bits));
                },
                _ => {},
            }
        } else {
            unknown.push(label.clone());
            proof {
                assert(labels_view(unknown@) =~= unknown_labels(em.take(i + 1)));
            }
        }
        proof {
            assert(cones@ =~= cones_of(em.take(i + 1)));
            assert(labels_view(unknown@) =~= unknown_labels(em.take(i + 1)));
        }
        i = i + 1;
    }
    proof {
        assert(em.take(entries@.len() as int) =~= em);
    }
    (cones, unknown)
}

} // verus!
