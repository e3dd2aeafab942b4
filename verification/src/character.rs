//! Character identification: the device choice and the tag rules that
//! decide which reference characters a detected face may be matched with.
use vstd::prelude::*;

verus! {

/// Where the recognition models run.
#[derive(Clone, Copy, Debug, PartialEq, Eq, Structural)]
pub enum DeviceType {
    Cpu,
    Gpu,
}

impl DeviceType {
    /// Whether the models are to run on the GPU.
    pub fn uses_gpu(&self) -> (r: bool)
        ensures
            r == (*self == DeviceType::Gpu),
    {
        match self {
            DeviceType::Gpu => true,
            DeviceType::Cpu => false,
        }
    }
}

/// The texts of a list of tags.
pub open spec fn tag_views(tags: Seq<String>) -> Seq<Seq<char>> {
    tags.map_values(|t: String| t@)
}

/// Hair-colour tags; a face and a reference must agree on one if both
/// carry one.
pub open spec fn hair_color_tags() -> Seq<Seq<char>> {
    seq![
        "blonde_hair"@,
        "brown_hair"@,
        "black_hair"@,
        "blue_hair"@,
        "pink_hair"@,
        "purple_hair"@,
        "white_hair"@,
        "grey_hair"@,
        "red_hair"@,
        "silver_hair"@,
        "green_hair"@,
        "orange_hair"@,
        "aqua_hair"@,
    ]
}

/// Eye-colour tags.
pub open spec fn eye_color_tags() -> Seq<Seq<char>> {
    seq![
        "blue_eyes"@,
        "red_eyes"@,
        "brown_eyes"@,
        "green_eyes"@,
        "purple_eyes"@,
        "yellow_eyes"@,
        "pink_eyes"@,
        "aqua_eyes"@,
        "black_eyes"@,
        "orange_eyes"@,
        "grey_eyes"@,
    ]
}

/// Hair-length tags.
pub open spec fn hair_length_tags() -> Seq<Seq<char>> {
    seq!["long_hair"@, "short_hair"@, "medium_hair"@, "very_long_hair"@]
}

/// Some tag of `tags` belongs to `group`.
pub open spec fn has_tag_in(tags: Seq<Seq<char>>, group: Seq<Seq<char>>) -> bool {
    exists|i: int| 0 <= i < tags.len() && group.contains(#[trigger] tags[i])
}

/// Some tag of `r` belongs to `group` and is also a tag of `f`.
pub open spec fn shares_tag_in(r: Seq<Seq<char>>, f: Seq<Seq<char>>, group: Seq<Seq<char>>) -> bool {
    exists|i: int| 0 <= i < r.len() && group.contains(#[trigger] r[i]) && f.contains(r[i])
}

/// Within one group, the reference and the face do not contradict each
/// other: unless both carry a tag of the group, or they share one.
pub open spec fn group_consistent(r: Seq<Seq<char>>, f: Seq<Seq<char>>, group: Seq<Seq<char>>) -> bool {
    (has_tag_in(r, group) && has_tag_in(f, group)) ==> shares_tag_in(r, f, group)
}

/// The hard filter: hair colour, eye colour and hair length must each be
/// consistent.
pub open spec fn passes_hard_filter(r: Seq<Seq<char>>, f: Seq<Seq<char>>) -> bool {
    &&& group_consistent(r, f, hair_color_tags())
    &&& group_consistent(r, f, eye_color_tags())
    &&& group_consistent(r, f, hair_length_tags())
}

/// How many tags of `r` (counted with repetition) also occur in `f`.
pub open spec fn count_shared(r: Seq<Seq<char>>, f: Seq<Seq<char>>) -> nat
    decreases r.len(),
{
    if r.len() == 0 {
        0
    } else {
        count_shared(r.drop_last(), f) + if f.contains(r.last()) {
            1nat
        } else {
            0nat
        }
    }
}

fn contains_tag(tags: &[String], t: &String) -> (r: bool)
    ensures
        r == tag_views(tags@).contains(t@),
{
    let mut i: usize = 0;
    while i < tags.len()
        invariant
            0 <= i <= tags@.len(),
            forall|k: int| 0 <= k < i ==> tags@[k]@ != t@,
        decreases tags@.len() - i,
    {
        if tags[i] == *t {
            assert(tag_views(tags@)[i as int] == t@);
            return true;
        }
        i += 1;
    }
    assert forall|k: int| 0 <= k < tag_views(tags@).len() implies tag_views(tags@)[k] != t@ by {
        assert(tag_views(tags@)[k] == tags@[k]@);
    }
    false
}

fn any_in_group(tags: &[String], group: &Vec<String>) -> (r: bool)
    ensures
        r == has_tag_in(tag_views(tags@), tag_views(group@)),
{
    let mut i: usize = 0;
    while i < tags.len()
        invariant
            0 <= i <= tags@.len(),
            forall|k: int| 0 <= k < i ==> !tag_views(group@).contains(#[trigger] tag_views(tags@)[k]),
        decreases tags@.len() - i,
    {
        if contains_tag(group.as_slice(), &tags[i]) {
            assert(tag_views(tags@)[i as int] == tags@[i as int]@);
            return true;
        }
        assert(tag_views(tags@)[i as int] == tags@[i as int]@);
        i += 1;
    }
    false
}

fn any_shared_in_group(ref_tags: &[String], face_tags: &[String], group: &Vec<String>) -> (r: bool)
    ensures
        r == shares_tag_in(tag_views(ref_tags@), tag_views(face_tags@), tag_views(group@)),
{
    let mut i: usize = 0;
    while i < ref_tags.len()
        invariant
            0 <= i <= ref_tags@.len(),
            forall|k: int|
                0 <= k < i ==> !(tag_views(group@).contains(#[trigger] tag_views(ref_tags@)[k])
                    && tag_views(face_tags@).contains(tag_views(ref_tags@)[k])),
        decreases ref_tags@.len() - i,
    {
        assert(tag_views(ref_tags@)[i as int] == ref_tags@[i as int]@);
        if contains_tag(group.as_slice(), &ref_tags[i]) && contains_tag(face_tags, &ref_tags[i]) {
            return true;
        }
        i += 1;
    }
    false
}

fn check_group(ref_tags: &[String], face_tags: &[String], group: &Vec<String>) -> (r: bool)
    ensures
        r == group_consistent(tag_views(ref_tags@), tag_views(face_tags@), tag_views(group@)),
{
    let ref_has_group = any_in_group(ref_tags, group);
    let face_has_group = any_in_group(face_tags, group);
    if ref_has_group && face_has_group {
        any_shared_in_group(ref_tags, face_tags, group)
    } else {
        true
    }
}

fn owned_tags(names: &[&str]) -> (r: Vec<String>)
    ensures
        r@.len() == names@.len(),
        forall|i: int| 0 <= i < names@.len() ==> #[trigger] r@[i]@ == names@[i]@,
{
    let mut out: Vec<String> = Vec::new();
    let mut i: usize = 0;
    while i < names.len()
        invariant
            0 <= i <= names@.len(),
            out@.len() == i,
            forall|k: int| 0 <= k < i ==> #[trigger] out@[k]@ == names@[k]@,
        decreases names@.len() - i,
    {
        out.push(names[i].to_owned());
        i += 1;
    }
    out
}

/// Matching of detected faces against reference characters.
pub struct Matcher;

impl Matcher {
    /// The hard filter: a reference is rejected when, for hair colour, eye
    /// colour or hair length, both it and the face carry tags of that kind
    /// but none in common. `ref_name` only names the reference.
    pub fn check_hard_filter(ref_name: &str, ref_tags: &[String], face_tags: &[String]) -> (r:
        bool)
        ensures
            r == passes_hard_filter(tag_views(ref_tags@), tag_views(face_tags@)),
    {
        let hair_colors = owned_tags(
            &[
                "blonde_hair",
                "brown_hair",
                "black_hair",
                "blue_hair",
                "pink_hair",
                "purple_hair",
                "white_hair",
                "grey_hair",
                "red_hair",
                "silver_hair",
                "green_hair",
                "orange_hair",
                "aqua_hair",
            ],
        );
        assert(tag_views(hair_colors@) =~= hair_color_tags());
        let eye_colors = owned_tags(
            &[
                "blue_eyes",
                "red_eyes",
                "brown_eyes",
                "green_eyes",
                "purple_eyes",
                "yellow_eyes",
                "pink_eyes",
                "aqua_eyes",
                "black_eyes",
                "orange_eyes",
                "grey_eyes",
            ],
        );
        assert(tag_views(eye_colors@) =~= eye_color_tags());
        let hair_lengths = owned_tags(&["long_hair", "short_hair", "medium_hair", "very_long_hair"]);
        assert(tag_views(hair_lengths@) =~= hair_length_tags());
        if !check_group(ref_tags, face_tags, &hair_colors) {
            return false;
        }
        if !check_group(ref_tags, face_tags, &eye_colors) {
            return false;
        }
        if !check_group(ref_tags, face_tags, &hair_lengths) {
            return false;
        }
        true
    }

    /// The tag overlap used to weight a match: the number of reference tags
    /// that the face also carries, and the size of the union
    /// (`|ref| + |face| - shared`).
    pub fn tag_overlap(ref_tags: &[String], face_tags: &[String]) -> (r: (usize, usize))
        requires
            ref_tags@.len() + face_tags@.len() <= usize::MAX,
        ensures
            r.0 == count_shared(tag_views(ref_tags@), tag_views(face_tags@)),
            r.1 == ref_tags@.len() + face_tags@.len() - r.0,
    {
        let mut intersection: usize = 0;
        let mut i: usize = 0;
        while i < ref_tags.len()
            invariant
                0 <= i <= ref_tags@.len(),
                intersection == count_shared(
                    tag_views(ref_tags@.take(i as int)),
                    tag_views(face_tags@),
                ),
                intersection <= i,
            decreases ref_tags@.len() - i,
        {
            assert(tag_views(ref_tags@.take(i + 1)).drop_last() =~= tag_views(
                ref_tags@.take(i as int),
            ));
            if contains_tag(face_tags, &ref_tags[i]) {
                intersection += 1;
            }
            i += 1;
        }
        assert(ref_tags@.take(ref_tags@.len() as int) =~= ref_tags@);
        (intersection, ref_tags.len() + face_tags.len() - intersection)
    }
}

/// The hair colours, eye colours and hair lengths that the hard filter
/// compares, as they are listed for it.
pub open spec fn listed_hair_colours() -> Seq<Seq<char>> {
    seq![
        "blonde_hair"@, "brown_hair"@, "black_hair"@, "blue_hair"@, "pink_hair"@,
        "purple_hair"@, "white_hair"@, "grey_hair"@, "red_hair"@, "silver_hair"@,
        "green_hair"@, "orange_hair"@, "aqua_hair"@,
    ]
}

pub open spec fn listed_eye_colours() -> Seq<Seq<char>> {
    seq![
        "blue_eyes"@, "red_eyes"@, "brown_eyes"@, "green_eyes"@, "purple_eyes"@,
        "yellow_eyes"@, "pink_eyes"@, "aqua_eyes"@, "black_eyes"@, "orange_eyes"@,
        "grey_eyes"@,
    ]
}

pub open spec fn listed_hair_lengths() -> Seq<Seq<char>> {
    seq!["long_hair"@, "short_hair"@, "medium_hair"@, "very_long_hair"@]
}

proof fn lemma_single_tags_in_group(a: Seq<char>, b: Seq<char>, group: Seq<Seq<char>>)
    requires
        group.contains(a),
        group.contains(b),
    ensures
        group_consistent(seq![a], seq![b], group) == (a == b),
{
    let r = seq![a];
    let f = seq![b];
    assert(r[0] == a);
    assert(f[0] == b);
    assert(has_tag_in(r, group));
    assert(has_tag_in(f, group));
    if a == b {
        assert(f.contains(r[0]));
        assert(shares_tag_in(r, f, group));
    } else {
        assert forall|i: int| 0 <= i < r.len() && group.contains(r[i]) implies !f.contains(r[i]) by {
            assert(i == 0);
            if f.contains(a) {
                let j = choose|j: int| 0 <= j < f.len() && f[j] == a;
                assert(j == 0);
            }
        }
    }
}

proof fn lemma_same_tag_passes(a: Seq<char>)
    ensures
        passes_hard_filter(seq![a], seq![a]),
{
    let r = seq![a];
    assert(r[0] == a);
    assert(r.contains(r[0]));
}

/// Law: a reference and a face that each carry one listed hair colour pass
/// the hard filter exactly when it is the same colour; likewise for eye
/// colours and for hair lengths.
pub proof fn law_listed_tags_conflict(i: int, j: int)
    ensures
        0 <= i < 13 && 0 <= j < 13 ==> passes_hard_filter(
            seq![listed_hair_colours()[i]],
            seq![listed_hair_colours()[j]],
        ) == (listed_hair_colours()[i] == listed_hair_colours()[j]),
        0 <= i < 11 && 0 <= j < 11 ==> passes_hard_filter(
            seq![listed_eye_colours()[i]],
            seq![listed_eye_colours()[j]],
        ) == (listed_eye_colours()[i] == listed_eye_colours()[j]),
        0 <= i < 4 && 0 <= j < 4 ==> passes_hard_filter(
            seq![listed_hair_lengths()[i]],
            seq![listed_hair_lengths()[j]],
        ) == (listed_hair_lengths()[i] == listed_hair_lengths()[j]),
{
    if 0 <= i < 13 && 0 <= j < 13 {
        let a = listed_hair_colours()[i];
        let b = listed_hair_colours()[j];
        assert(listed_hair_colours() =~= hair_color_tags());
        assert(hair_color_tags().contains(a));
        assert(hair_color_tags().contains(b));
        lemma_single_tags_in_group(a, b, hair_color_tags());
        if a == b {
            lemma_same_tag_passes(a);
        }
    }
    if 0 <= i < 11 && 0 <= j < 11 {
        let a = listed_eye_colours()[i];
        let b = listed_eye_colours()[j];
        assert(listed_eye_colours() =~= eye_color_tags());
        assert(eye_color_tags().contains(a));
        assert(eye_color_tags().contains(b));
        lemma_single_tags_in_group(a, b, eye_color_tags());
        if a == b {
            lemma_same_tag_passes(a);
        }
    }
    if 0 <= i < 4 && 0 <= j < 4 {
        let a = listed_hair_lengths()[i];
        let b = listed_hair_lengths()[j];
        assert(listed_hair_lengths() =~= hair_length_tags());
        assert(hair_length_tags().contains(a));
        assert(hair_length_tags().contains(b));
        lemma_single_tags_in_group(a, b, hair_length_tags());
        if a == b {
            lemma_same_tag_passes(a);
        }
    }
}

} // verus!
