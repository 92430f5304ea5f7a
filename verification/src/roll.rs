//! Character rolls and the reference table of characters they draw from,
//! joined in application code.

use vstd::prelude::*;

use crate::ids::new_uuid_string;

verus! {

/// One character of the reference table.
#[derive(Debug, Clone)]
pub struct MalCharacter {
    pub character_id: i32,
    pub url: String,
    pub name: String,
    pub name_kanji: String,
    pub image_url: String,
    pub created_at: String,
    pub about: String,
    pub id: String,
}

impl Default for MalCharacter {
    /// The character a failed lookup falls back to.
    fn default() -> (r: MalCharacter)
        ensures
            r.character_id == 0,
            r.url@ == Seq::<char>::empty(),
            r.name@ == Seq::<char>::empty(),
            r.name_kanji@ == Seq::<char>::empty(),
            r.image_url@ == Seq::<char>::empty(),
            r.created_at@ == Seq::<char>::empty(),
            r.about@ == Seq::<char>::empty(),
            r.id@ == Seq::<char>::empty(),
    {
        MalCharacter {
            character_id: 0,
            url: String::new(),
            name: String::new(),
            name_kanji: String::new(),
            image_url: String::new(),
            created_at: String::new(),
            about: String::new(),
            id: String::new(),
        }
    }
}

/// One roll a user made.
#[derive(Debug, Clone)]
pub struct UserRoll {
    pub roll_id: i32,
    pub user_id: String,
    pub mal_character_id: i32,
    pub created_at: String,
    pub id: String,
}

/// A roll joined with the character it drew.
#[derive(Debug, Clone)]
pub struct GetRollResult {
    pub user_roll: UserRoll,
    pub mal_character: MalCharacter,
}

/// Whether some character of the table carries this id.
pub open spec fn has_character(characters: Seq<MalCharacter>, id: i32) -> bool {
    exists|k: int| 0 <= k < characters.len() && (#[trigger] characters[k]).character_id == id
}

/// The position of the first character carrying this id.
pub open spec fn first_character_index(characters: Seq<MalCharacter>, id: i32) -> int {
    choose|k: int|
        0 <= k < characters.len() && (#[trigger] characters[k]).character_id == id && forall|j: int|
            0 <= j < k ==> (#[trigger] characters[j]).character_id != id
}

/// Copies one character of the table.
fn clone_character(c: &MalCharacter) -> (r: MalCharacter)
    ensures
        same_character(r, *c),
{
    MalCharacter {
        character_id: c.character_id,
        url: c.url.clone(),
        name: c.name.clone(),
        name_kanji: c.name_kanji.clone(),
        image_url: c.image_url.clone(),
        created_at: c.created_at.clone(),
        about: c.about.clone(),
        id: c.id.clone(),
    }
}

/// Whether two rows describe the same character.
pub open spec fn same_character(a: MalCharacter, b: MalCharacter) -> bool {
    &&& a.character_id == b.character_id
    &&& a.url@ == b.url@
    &&& a.name@ == b.name@
    &&& a.name_kanji@ == b.name_kanji@
    &&& a.image_url@ == b.image_url@
    &&& a.created_at@ == b.created_at@
    &&& a.about@ == b.about@
    &&& a.id@ == b.id@
}

/// Whether a character row is the all-empty fallback.
pub open spec fn is_default_character(c: MalCharacter) -> bool {
    &&& c.character_id == 0
    &&& c.url@ == Seq::<char>::empty()
    &&& c.name@ == Seq::<char>::empty()
    &&& c.name_kanji@ == Seq::<char>::empty()
    &&& c.image_url@ == Seq::<char>::empty()
    &&& c.created_at@ == Seq::<char>::empty()
    &&& c.about@ == Seq::<char>::empty()
    &&& c.id@ == Seq::<char>::empty()
}

/// Finds the first character carrying this id, or the empty fallback.
pub fn find_character(characters: &Vec<MalCharacter>, id: i32) -> (r: MalCharacter)
    ensures
        has_character(characters@, id) ==> same_character(
            r,
            characters@[first_character_index(characters@, id)],
        ),
        !has_character(characters@, id) ==> is_default_character(r),
{
    let mut k: usize = 0;
    while k < characters.len()
        invariant
            k <= characters@.len(),
            forall|j: int| 0 <= j < k ==> (#[trigger] characters@[j]).character_id != id,
        decreases characters@.len() - k,
    {
        if characters[k].character_id == id {
            proof {
                let w = first_character_index(characters@, id);
                assert(0 <= w < characters@.len() && characters@[w].character_id == id && forall|
                    j: int,
                |
                    0 <= j < w ==> (#[trigger] characters@[j]).character_id != id);
                assert(w == k as int);
            }
            return clone_character(&characters[k]);
        }
        k += 1;
    }
    MalCharacter::default()
}

/// Joins each roll with the character it drew: the first table row carrying
/// the roll's character id, or the empty fallback where none does.
pub fn join_rolls_with_characters(
    rolls: Vec<UserRoll>,
    characters: &Vec<MalCharacter>,
) -> (r: Vec<GetRollResult>)
    ensures
        r@.len() == rolls@.len(),
        forall|i: int|
            0 <= i < r@.len() ==> {
                &&& (#[trigger] r@[i]).user_roll == rolls@[i]
                &&& (has_character(characters@, rolls@[i].mal_character_id) ==> same_character(
                    r@[i].mal_character,
                    characters@[first_character_index(characters@, rolls@[i].mal_character_id)],
                ))
                &&& (!has_character(characters@, rolls@[i].mal_character_id)
                    ==> is_default_character(r@[i].mal_character))
            },
{
    let ghost orig = rolls@;
    let mut rest = rolls;
    let mut out: Vec<GetRollResult> = Vec::new();
    proof {
        assert(rest@ =~= orig.subrange(0, orig.len() as int));
    }
    while rest.len() > 0
        invariant
            rest@.len() <= orig.len(),
            rest@ == orig.subrange(orig.len() - rest@.len(), orig.len() as int),
            out@.len() == orig.len() - rest@.len(),
            forall|i: int|
                0 <= i < out@.len() ==> {
                    &&& (#[trigger] out@[i]).user_roll == orig[i]
                    &&& (has_character(characters@, orig[i].mal_character_id) ==> same_character(
                        out@[i].mal_character,
                        characters@[first_character_index(characters@, orig[i].mal_character_id)],
                    ))
                    &&& (!has_character(characters@, orig[i].mal_character_id)
                        ==> is_default_character(out@[i].mal_character))
                },
        decreases rest@.len(),
    {
        let ghost i = orig.len() - rest@.len();
        proof {
            assert(rest@[0] == orig[i as int]);
        }
        let roll = rest.remove(0);
        proof {
            assert(rest@ =~= orig.subrange(i as int + 1, orig.len() as int));
        }
        let character = find_character(characters, roll.mal_character_id);
        out.push(GetRollResult { user_roll: roll, mal_character: character });
    }
    out
}

/// The first joined roll carrying this roll id, where one exists.
pub fn find_roll_by_id(results: &Vec<GetRollResult>, roll_id: i32) -> (r: Option<usize>)
    ensures
        r matches Some(i) ==> i < results@.len() && results@[i as int].user_roll.roll_id == roll_id
            && (forall|k: int|
            0 <= k < i ==> (#[trigger] results@[k]).user_roll.roll_id != roll_id),
        r is None ==> forall|k: int|
            0 <= k < results@.len() ==> (#[trigger] results@[k]).user_roll.roll_id != roll_id,
{
    let mut i: usize = 0;
    while i < results.len()
        invariant
            i <= results@.len(),
            forall|k: int| 0 <= k < i ==> (#[trigger] results@[k]).user_roll.roll_id != roll_id,
        decreases results@.len() - i,
    {
        if results[i].user_roll.roll_id == roll_id {
            return Some(i);
        }
        i += 1;
    }
    None
}

/// Gives a roll about to be stored a fresh document id where it arrived
/// without one.
pub fn ensure_roll_id(payload: &mut UserRoll)
    ensures
        old(payload).id@.len() > 0 ==> *final(payload) == *old(payload),
        old(payload).id@.len() == 0 ==> {
            &&& final(payload).id@.len() == 36
            &&& final(payload).roll_id == old(payload).roll_id
            &&& final(payload).user_id == old(payload).user_id
            &&& final(payload).mal_character_id == old(payload).mal_character_id
            &&& final(payload).created_at == old(payload).created_at
        },
{
    if payload.id.as_str().is_empty() {
        payload.id = new_uuid_string();
    }
}

/// Gives a character row about to be stored a fresh document id where it
/// arrived without one.
pub fn ensure_character_id(payload: &mut MalCharacter)
    ensures
        old(payload).id@.len() > 0 ==> *final(payload) == *old(payload),
        old(payload).id@.len() == 0 ==> {
            &&& final(payload).id@.len() == 36
            &&& final(payload).character_id == old(payload).character_id
            &&& final(payload).url == old(payload).url
            &&& final(payload).name == old(payload).name
            &&& final(payload).name_kanji == old(payload).name_kanji
            &&& final(payload).image_url == old(payload).image_url
            &&& final(payload).created_at == old(payload).created_at
            &&& final(payload).about == old(payload).about
        },
{
    if payload.id.as_str().is_empty() {
        payload.id = new_uuid_string();
    }
}

} // verus!
