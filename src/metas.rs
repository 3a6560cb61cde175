use vstd::prelude::*;

use crate::error::VVSpeechError;

verus! {

/// One style of a speaker: a name and the numeric id the engine knows it by.
#[derive(Debug, Clone)]
pub struct Style {
    pub name: String,
    pub id: u32,
}

/// One speaker of the engine's catalog, with its styles in catalog order.
#[derive(Debug, Clone)]
pub struct Meta {
    pub name: String,
    pub styles: Vec<Style>,
    pub speaker_uuid: String,
    pub version: String,
}

impl Meta {
    /// The speaker has a style with id `id`.
    pub open spec fn owns(&self, id: u32) -> bool {
        exists|i: int| 0 <= i < self.styles@.len() && #[trigger] self.styles@[i].id == id
    }

    pub fn has_id(&self, speaker_id: u32) -> (r: bool)
        ensures
            r == self.owns(speaker_id),
    {
        let mut i: usize = 0;
        while i < self.styles.len()
            invariant
                i <= self.styles@.len(),
                forall|j: int| 0 <= j < i ==> #[trigger] self.styles@[j].id != speaker_id,
            decreases self.styles@.len() - i,
        {
            if self.styles[i].id == speaker_id {
                return true;
            }
            i = i + 1;
        }
        false
    }

    pub fn first_style_id(&self) -> (r: u32)
        requires
            self.styles@.len() > 0,
        ensures
            r == self.styles@[0].id,
    {
        self.styles[0].id
    }
}

/// Every speaker of the catalog has at least one style.
pub open spec fn all_have_styles(metas: Seq<Meta>) -> bool {
    forall|i: int| 0 <= i < metas.len() ==> (#[trigger] metas[i]).styles@.len() > 0
}

/// Some speaker of the catalog has a style with id `id`.
pub open spec fn catalog_has_id(metas: Seq<Meta>, id: u32) -> bool {
    exists|i: int| 0 <= i < metas.len() && (#[trigger] metas[i]).owns(id)
}

/// Index `i` holds the first speaker of the catalog named `name`.
pub open spec fn first_named(metas: Seq<Meta>, name: Seq<char>, i: int) -> bool {
    &&& 0 <= i < metas.len()
    &&& metas[i].name@ == name
    &&& forall|j: int| 0 <= j < i ==> (#[trigger] metas[j]).name@ != name
}

/// Some speaker of the catalog is named `name`.
pub open spec fn has_speaker(metas: Seq<Meta>, name: Seq<char>) -> bool {
    exists|i: int| 0 <= i < metas.len() && (#[trigger] metas[i]).name@ == name
}

/// The first speaker of the catalog named `name` (meaningful when there is one).
pub open spec fn speaker_named(metas: Seq<Meta>, name: Seq<char>) -> Meta {
    metas[choose|i: int| first_named(metas, name, i)]
}

/// Exactly one index holds the first speaker with a given name, when some
/// speaker has that name.
pub proof fn lemma_first_named_unique(metas: Seq<Meta>, name: Seq<char>)
    requires
        has_speaker(metas, name),
    ensures
        exists|i: int| first_named(metas, name, i),
        forall|i: int, k: int| first_named(metas, name, i) && first_named(metas, name, k) ==> i == k,
{
    let w = choose|i: int| 0 <= i < metas.len() && (#[trigger] metas[i]).name@ == name;
    lemma_first_named_exists(metas, name, w);
}

proof fn lemma_first_named_exists(metas: Seq<Meta>, name: Seq<char>, w: int)
    requires
        0 <= w < metas.len(),
        metas[w].name@ == name,
    ensures
        exists|i: int| first_named(metas, name, i),
    decreases w,
{
    if exists|j: int| 0 <= j < w && (#[trigger] metas[j]).name@ == name {
        let j = choose|j: int| 0 <= j < w && (#[trigger] metas[j]).name@ == name;
        lemma_first_named_exists(metas, name, j);
    } else {
        assert(first_named(metas, name, w));
    }
}

/// The index of the first speaker named `name`, if any.
pub fn find_speaker(metas: &[Meta], name: &String) -> (r: Option<usize>)
    ensures
        match r {
            Some(i) => first_named(metas@, name@, i as int),
            None => !has_speaker(metas@, name@),
        },
{
    let mut i: usize = 0;
    while i < metas.len()
        invariant
            i <= metas@.len(),
            forall|j: int| 0 <= j < i ==> (#[trigger] metas@[j]).name@ != name@,
        decreases metas@.len() - i,
    {
        if metas[i].name == *name {
            return Some(i);
        }
        i = i + 1;
    }
    None
}

/// Whether some speaker of the catalog has a style with id `speaker_id`.
pub fn is_valid_id(metas: &[Meta], speaker_id: u32) -> (r: bool)
    ensures
        r == catalog_has_id(metas@, speaker_id),
{
    let mut i: usize = 0;
    while i < metas.len()
        invariant
            i <= metas@.len(),
            forall|j: int| 0 <= j < i ==> !(#[trigger] metas@[j]).owns(speaker_id),
        decreases metas@.len() - i,
    {
        if metas[i].has_id(speaker_id) {
            return true;
        }
        i = i + 1;
    }
    false
}

/// What resolving an optional style id and an optional speaker name against
/// `metas` gives:
/// - neither: the engine's default style `0`;
/// - an id alone: that id, if some speaker has it, else `InvalidId`;
/// - a name alone: the first style of the first speaker with that name, else
///   `InvalidSpeakerName`;
/// - both: the id, if the first speaker with that name has it;
///   `InvalidSpeakerName` if no speaker has that name;
///   `InvalidSpeakerNameIdPair` if the speaker lacks that id.
pub open spec fn resolves(
    metas: Seq<Meta>,
    id: Option<u32>,
    name: Option<Seq<char>>,
    r: Result<u32, VVSpeechError>,
) -> bool {
    match (id, name) {
        (None, None) => r == Ok::<u32, VVSpeechError>(0),
        (Some(id), None) => if catalog_has_id(metas, id) {
            r == Ok::<u32, VVSpeechError>(id)
        } else {
            r == Err::<u32, VVSpeechError>(VVSpeechError::InvalidId(id))
        },
        (None, Some(name)) => if has_speaker(metas, name) {
            r == Ok::<u32, VVSpeechError>(speaker_named(metas, name).styles@[0].id)
        } else {
            is_bad_name(r, name)
        },
        (Some(id), Some(name)) => if !has_speaker(metas, name) {
            is_bad_name(r, name)
        } else if speaker_named(metas, name).owns(id) {
            r == Ok::<u32, VVSpeechError>(id)
        } else {
            is_bad_pair(r, name, id)
        },
    }
}

/// `r` is the error for an unknown speaker name `name`.
pub open spec fn is_bad_name(r: Result<u32, VVSpeechError>, name: Seq<char>) -> bool {
    r matches Err(VVSpeechError::InvalidSpeakerName(n)) && n@ == name
}

/// `r` is the error for a speaker `name` that has no style `id`.
pub open spec fn is_bad_pair(r: Result<u32, VVSpeechError>, name: Seq<char>, id: u32) -> bool {
    r matches Err(VVSpeechError::InvalidSpeakerNameIdPair(n, i)) && n@ == name && i == id
}

/// The optional name as a sequence of characters.
pub open spec fn name_view(name: Option<String>) -> Option<Seq<char>> {
    match name {
        Some(n) => Some(n@),
        None => None,
    }
}

/// The id of the first style of the first speaker named `speaker_name`.
pub fn get_first_speaker_id(metas: &[Meta], speaker_name: &str) -> (r: Result<u32, VVSpeechError>)
    requires
        all_have_styles(metas@),
    ensures
        resolves(metas@, None, Some(speaker_name@), r),
{
    let name = speaker_name.to_owned();
    match find_speaker(metas, &name) {
        Some(i) => {
            proof {
                lemma_first_named_unique(metas@, name@);
            }
            Ok(metas[i].first_style_id())
        },
        None => Err(VVSpeechError::InvalidSpeakerName(name)),
    }
}

/// Which speakers the catalog listing shows: all of them (`Ok(None)`) when
/// no name is given, else the first speaker with that name (`Ok(Some(i))`),
/// or `InvalidSpeakerName` when no speaker has it.
pub fn select_for_info(metas: &[Meta], name: &Option<String>) -> (r: Result<Option<usize>, VVSpeechError>)
    ensures
        match *name {
            None => r == Ok::<Option<usize>, VVSpeechError>(None),
            Some(n) => if has_speaker(metas@, n@) {
                r matches Ok(Some(i)) && first_named(metas@, n@, i as int)
            } else {
                r matches Err(VVSpeechError::InvalidSpeakerName(m)) && m@ == n@
            },
        },
{
    match name {
        None => Ok(None),
        Some(n) => match find_speaker(metas, n) {
            Some(i) => Ok(Some(i)),
            None => Err(VVSpeechError::InvalidSpeakerName(n.clone())),
        },
    }
}

/// Turns an optional style id and an optional speaker name into the style id
/// to synthesize with. When both are given, the id must belong to that very
/// speaker.
pub fn get_appropriate_id(
    metas: &[Meta],
    speaker_id: &Option<u32>,
    speaker_name: &Option<String>,
) -> (r: Result<u32, VVSpeechError>)
    requires
        all_have_styles(metas@),
    ensures
        resolves(metas@, *speaker_id, name_view(*speaker_name), r),
{
    match (speaker_id, speaker_name) {
        (None, None) => Ok(0),
        (Some(speaker_id), None) => {
            if is_valid_id(metas, *speaker_id) {
                Ok(*speaker_id)
            } else {
                Err(VVSpeechError::InvalidId(*speaker_id))
            }
        },
        (None, Some(speaker_name)) => get_first_speaker_id(metas, speaker_name.as_str()),
        (Some(speaker_id), Some(speaker_name)) => {
            match find_speaker(metas, speaker_name) {
                None => Err(VVSpeechError::InvalidSpeakerName(speaker_name.clone())),
                Some(i) => {
                    proof {
                        lemma_first_named_unique(metas@, speaker_name@);
                    }
                    if metas[i].has_id(*speaker_id) {
                        Ok(*speaker_id)
                    } else {
                        Err(
                            VVSpeechError::InvalidSpeakerNameIdPair(
                                metas[i].name.clone(),
                                *speaker_id,
                            ),
                        )
                    }
                },
            }
        },
    }
}

/// With neither an id nor a name, every catalog resolves to the default style `0`.
pub proof fn law_default_speaker(metas: Seq<Meta>, r: Result<u32, VVSpeechError>)
    requires
        resolves(metas, None, None, r),
    ensures
        r == Ok::<u32, VVSpeechError>(0),
{
}

/// An id alone resolves to itself when some speaker has it, and to
/// `InvalidId` of that id otherwise.
pub proof fn law_id_alone(metas: Seq<Meta>, id: u32, r: Result<u32, VVSpeechError>)
    requires
        resolves(metas, Some(id), None, r),
    ensures
        catalog_has_id(metas, id) ==> r == Ok::<u32, VVSpeechError>(id),
        !catalog_has_id(metas, id) ==> r == Err::<u32, VVSpeechError>(VVSpeechError::InvalidId(id)),
{
}

/// A name alone that the catalog holds resolves to the first style, in
/// catalog order, of the first speaker with that name.
pub proof fn law_name_alone(metas: Seq<Meta>, name: Seq<char>, i: int, r: Result<u32, VVSpeechError>)
    requires
        first_named(metas, name, i),
        resolves(metas, None, Some(name), r),
    ensures
        r == Ok::<u32, VVSpeechError>(metas[i].styles@[0].id),
{
    lemma_first_named_unique(metas, name);
}

/// An id given together with the name of a speaker that lacks it is refused
/// as a bad name/id pair, even when another speaker has that id; it is
/// never reported as an unknown id.
pub proof fn law_id_of_other_speaker(metas: Seq<Meta>, id: u32, name: Seq<char>, r: Result<u32, VVSpeechError>)
    requires
        has_speaker(metas, name),
        forall|i: int| 0 <= i < metas.len() && (#[trigger] metas[i]).owns(id) ==> metas[i].name@ != name,
        resolves(metas, Some(id), Some(name), r),
    ensures
        is_bad_pair(r, name, id),
        !(r matches Err(VVSpeechError::InvalidId(_))),
{
    lemma_first_named_unique(metas, name);
    let i = choose|i: int| first_named(metas, name, i);
    assert(!metas[i].owns(id));
}

} // verus!
