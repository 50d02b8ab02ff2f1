use crate::lexeme::{parse_number, same_text, spec_parse_number};
use vstd::prelude::*;
use vstd::string::StringSliceAdditionalSpecFns;
use vstd::utf8::encode_utf8;

verus! {

/// A name that the assembler knows, with what it stands for.
#[derive(Debug)]
pub enum Label {
    /// A place in the program: name and program-word address.
    Header(String, usize),
    /// A named value.
    Const(String, u16),
    /// A named address.
    Variable(String, u16),
    /// Words reserved at an address in RAM.
    Alloc(usize, Vec<u16>),
    /// A trait of the program: trait name and value.
    Trait(String, u16),
}

/// What a label holds, with names as their bytes.
pub enum LabelView {
    /// A place in the program.
    Header(Seq<u8>, usize),
    /// A named value.
    Const(Seq<u8>, u16),
    /// A named address.
    Variable(Seq<u8>, u16),
    /// Words reserved in RAM.
    Alloc(usize, Seq<u16>),
    /// A trait of the program.
    Trait(Seq<u8>, u16),
}

impl LabelView {
    /// The name under which the label is found; an allocation has none.
    pub open spec fn name(self) -> Option<Seq<u8>> {
        match self {
            LabelView::Header(n, _) => Some(n),
            LabelView::Const(n, _) => Some(n),
            LabelView::Variable(n, _) => Some(n),
            LabelView::Trait(n, _) => Some(n),
            LabelView::Alloc(_, _) => None,
        }
    }

    /// The number that a reference to the label stands for; a trait stands for none.
    pub open spec fn number(self) -> Option<u32> {
        match self {
            LabelView::Header(_, a) => Some((a as int % 0x1_0000_0000) as u32),
            LabelView::Const(_, v) => Some(v as u32),
            LabelView::Variable(_, v) => Some(v as u32),
            _ => None,
        }
    }
}

impl View for Label {
    type V = LabelView;

    open spec fn view(&self) -> LabelView {
        match self {
            Label::Header(n, a) => LabelView::Header(encode_utf8(n@), *a),
            Label::Const(n, v) => LabelView::Const(encode_utf8(n@), *v),
            Label::Variable(n, v) => LabelView::Variable(encode_utf8(n@), *v),
            Label::Alloc(a, w) => LabelView::Alloc(*a, w@),
            Label::Trait(n, v) => LabelView::Trait(encode_utf8(n@), *v),
        }
    }
}

impl Label {
    /// A copy of the label.
    pub fn duplicate(&self) -> (r: Label)
        ensures
            r@ == self@,
    {
        match self {
            Label::Header(n, a) => Label::Header(n.clone(), *a),
            Label::Const(n, v) => Label::Const(n.clone(), *v),
            Label::Variable(n, v) => Label::Variable(n.clone(), *v),
            Label::Alloc(a, w) => Label::Alloc(*a, w.clone()),
            Label::Trait(n, v) => Label::Trait(n.clone(), *v),
        }
    }

    /// Whether the label is found under `name`.
    pub fn is_named(&self, name: &str) -> (r: bool)
        ensures
            r == (self@.name() == Some(name.spec_bytes())),
    {
        match self {
            Label::Header(n, _) | Label::Const(n, _) | Label::Variable(n, _) | Label::Trait(
                n,
                _,
            ) => same_text(n.as_str(), name),
            Label::Alloc(_, _) => false,
        }
    }
}

/// The views of a list of labels.
pub open spec fn labels_view(labels: Seq<Label>) -> Seq<LabelView> {
    Seq::new(labels.len(), |i: int| labels[i]@)
}

/// Index of the first label that is found under `name`.
pub open spec fn spec_find_label(labels: Seq<LabelView>, name: Seq<u8>) -> Option<int>
    decreases labels.len(),
{
    if labels.len() == 0 {
        None
    } else {
        match spec_find_label(labels.drop_last(), name) {
            Some(i) => Some(i),
            None => if labels.last().name() == Some(name) {
                Some(labels.len() - 1)
            } else {
                None
            },
        }
    }
}

/// What `spec_find_label` finds is the first label of that name, and `None` means that no
/// label has it.
pub proof fn lemma_find_label(labels: Seq<LabelView>, name: Seq<u8>)
    ensures
        match spec_find_label(labels, name) {
            Some(i) => 0 <= i < labels.len() && labels[i].name() == Some(name) && forall|j: int|
                0 <= j < i ==> labels[j].name() != Some(name),
            None => forall|j: int| 0 <= j < labels.len() ==> labels[j].name() != Some(name),
        },
    decreases labels.len(),
{
    if labels.len() > 0 {
        let earlier = labels.drop_last();
        lemma_find_label(earlier, name);
        assert(forall|j: int| 0 <= j < earlier.len() ==> earlier[j] == labels[j]);
        match spec_find_label(earlier, name) {
            Some(i) => {
                assert(labels[i] == earlier[i]);
                assert forall|j: int| 0 <= j < i implies labels[j].name() != Some(name) by {
                    assert(labels[j] == earlier[j]);
                }
            },
            None => {
                assert forall|j: int| 0 <= j < labels.len() - 1 implies labels[j].name() != Some(
                    name,
                ) by {
                    assert(labels[j] == earlier[j]);
                }
            },
        }
    }
}

/// Finds the first label of a name.
pub fn find_label(labels: &Vec<Label>, name: &str) -> (r: Option<usize>)
    ensures
        match r {
            Some(i) => spec_find_label(labels_view(labels@), name.spec_bytes()) == Some(i as int),
            None => spec_find_label(labels_view(labels@), name.spec_bytes()) is None,
        },
{
    let mut i: usize = 0;
    let ghost all = labels_view(labels@);
    assert(all.take(0) =~= Seq::<LabelView>::empty());
    while i < labels.len()
        invariant
            i <= labels.len(),
            all == labels_view(labels@),
            spec_find_label(all.take(i as int), name.spec_bytes()) is None,
        decreases labels.len() - i,
    {
        let ghost longer = all.take(i + 1);
        proof {
            assert(longer.drop_last() =~= all.take(i as int));
            assert(longer.last() == labels@[i as int]@);
        }
        if labels[i].is_named(name) {
            proof {
                lemma_find_prefix(all, name.spec_bytes(), i + 1);
            }
            return Some(i);
        }
        i += 1;
    }
    assert(all.take(i as int) =~= all);
    None
}

/// A label found among the first `n` is the one found in the whole list.
proof fn lemma_find_prefix(labels: Seq<LabelView>, name: Seq<u8>, n: int)
    requires
        0 <= n <= labels.len(),
        spec_find_label(labels.take(n), name) is Some,
    ensures
        spec_find_label(labels, name) == spec_find_label(labels.take(n), name),
    decreases labels.len() - n,
{
    if n == labels.len() {
        assert(labels.take(n) =~= labels);
    } else {
        assert(labels.take(n + 1).drop_last() =~= labels.take(n));
        lemma_find_prefix(labels, name, n + 1);
    }
}

/// The number that a token stands for: the value of the first label of that name if it is a
/// header, a constant or a variable, else the token read as a numeric literal.
pub open spec fn spec_resolve_number(token: Seq<u8>, labels: Seq<LabelView>) -> Option<u32> {
    match spec_find_label(labels, token) {
        Some(i) => match labels[i].number() {
            Some(v) => Some(v),
            None => spec_parse_number(token),
        },
        None => spec_parse_number(token),
    }
}

/// Resolves a token to a number: a label's value where the token names one, else the
/// literal's value. `None` where it is neither.
pub fn resolve_number(number: &str, labels: Option<&Vec<Label>>) -> (r: Option<u32>)
    ensures
        r == spec_resolve_number(
            number.spec_bytes(),
            match labels {
                Some(l) => labels_view(l@),
                None => Seq::empty(),
            },
        ),
{
    match labels {
        Some(list) => {
            proof {
                lemma_find_label(labels_view(list@), number.spec_bytes());
            }
            match find_label(list, number) {
                Some(i) => {
                    match &list[i] {
                        Label::Header(_, a) => {
                            return Some(((*a as u64) % 0x1_0000_0000) as u32);
                        },
                        Label::Const(_, v) => {
                            return Some(*v as u32);
                        },
                        Label::Variable(_, v) => {
                            return Some(*v as u32);
                        },
                        _ => {},
                    }
                },
                None => {},
            }
        },
        None => {},
    }
    parse_number(number)
}

/// The value of the first trait of a name among the labels.
pub open spec fn spec_find_trait(labels: Seq<LabelView>, name: Seq<u8>) -> Option<u16>
    decreases labels.len(),
{
    if labels.len() == 0 {
        None
    } else {
        match spec_find_trait(labels.drop_last(), name) {
            Some(v) => Some(v),
            None => match labels.last() {
                LabelView::Trait(n, v) => if n == name {
                    Some(v)
                } else {
                    None
                },
                _ => None,
            },
        }
    }
}

/// The value of the first trait of a name, or `none_case` where the program declares none.
pub open spec fn spec_search_for_trait(
    labels: Seq<LabelView>,
    name: Seq<u8>,
    none_case: usize,
) -> usize {
    match spec_find_trait(labels, name) {
        Some(v) => v as usize,
        None => none_case,
    }
}

/// A trait found among the first `n` labels is the one found in the whole list.
proof fn lemma_find_trait_prefix(labels: Seq<LabelView>, name: Seq<u8>, n: int)
    requires
        0 <= n <= labels.len(),
        spec_find_trait(labels.take(n), name) is Some,
    ensures
        spec_find_trait(labels, name) == spec_find_trait(labels.take(n), name),
    decreases labels.len() - n,
{
    if n == labels.len() {
        assert(labels.take(n) =~= labels);
    } else {
        assert(labels.take(n + 1).drop_last() =~= labels.take(n));
        lemma_find_trait_prefix(labels, name, n + 1);
    }
}

/// Looks a trait up by name.
pub fn search_for_trait(labels: &Vec<Label>, trait_name: &str, none_case: usize) -> (r: usize)
    ensures
        r == spec_search_for_trait(labels_view(labels@), trait_name.spec_bytes(), none_case),
{
    let mut i: usize = 0;
    let ghost all = labels_view(labels@);
    assert(all.take(0) =~= Seq::<LabelView>::empty());
    while i < labels.len()
        invariant
            i <= labels.len(),
            all == labels_view(labels@),
            spec_find_trait(all.take(i as int), trait_name.spec_bytes()) is None,
        decreases labels.len() - i,
    {
        proof {
            let longer = all.take(i + 1);
            assert(longer.drop_last() =~= all.take(i as int));
            assert(longer.last() == labels@[i as int]@);
        }
        match &labels[i] {
            Label::Trait(name, value) => {
                if same_text(name.as_str(), trait_name) {
                    proof {
                        lemma_find_trait_prefix(all, trait_name.spec_bytes(), i + 1);
                    }
                    return *value as usize;
                }
            },
            _ => {},
        }
        i += 1;
    }
    assert(all.take(i as int) =~= all);
    none_case
}

} // verus!
