//! The hangman mini-game: its per-channel state and the rules one guess is
//! judged by.

use vstd::prelude::*;

verus! {

/// How many wrong guesses a game allows.
pub const MAX_ATTEMPTS: u8 = 10;

/// How many seconds of silence end a game as stale.
pub const STALE_AFTER_SECONDS: i64 = 60;

/// The player a mini-game request names.
#[derive(Debug, Clone)]
pub struct MinigameRequestUser {
    pub user_id: u64,
    pub nickname: String,
    pub avatar_url: String,
}

/// A request to start a mini-game in a channel.
#[derive(Debug, Clone)]
pub enum MinigameRequest {
    Quiz { user: MinigameRequestUser, channel_id: u64, application_id: u64, interaction_token: String },
    Hangman { user: MinigameRequestUser, channel_id: u64, application_id: u64, interaction_token: String },
    Tictactoe { user: MinigameRequestUser, channel_id: u64, application_id: u64, interaction_token: String },
}

/// A message a player sends into a running mini-game.
#[derive(Debug, Clone)]
pub enum MinigameProgressRequest {
    Quiz { user_id: u64, message: String, channel_id: u64, guild_id: u64, message_id: u64 },
    Hangman { user_id: u64, message: String, channel_id: u64, guild_id: u64, message_id: u64 },
    Tictactoe { user_id: u64, message: String, channel_id: u64, guild_id: u64, message_id: u64 },
}

/// Where a mini-game stands after a progress message.
#[derive(Debug, Clone, Copy)]
pub enum MinigameStatus {
    InProgress,
    Stale,
    End,
}

/// The body of a progress response.
#[derive(Debug, Clone, Copy)]
pub struct MinigameProgressResponse {
    pub status: MinigameStatus,
}

/// One player's running hangman game.
#[derive(Debug, Clone)]
pub struct HangmanData {
    pub attempts: u8,
    pub previous_guesses: Vec<char>,
    pub word: Vec<char>,
    pub last_reply_time: i64,
}

/// The uppercase form of an ASCII letter; any other character is unchanged.
pub open spec fn upper_of(c: char) -> char {
    if 97 <= c as u32 <= 122 {
        (((c as u32) - 32) as u8) as char
    } else {
        c
    }
}

/// Uppercases an ASCII letter.
pub fn ascii_upper(c: char) -> (r: char)
    ensures
        r == upper_of(c),
{
    let v = c as u32;
    if 97 <= v && v <= 122 {
        ((v - 32) as u8) as char
    } else {
        c
    }
}

/// Whether `c` is an ASCII letter.
pub open spec fn spec_is_ascii_letter(c: char) -> bool {
    65 <= c as u32 <= 90 || 97 <= c as u32 <= 122
}

/// Tests whether `c` is an ASCII letter.
pub fn is_ascii_letter(c: char) -> (r: bool)
    ensures
        r == spec_is_ascii_letter(c),
{
    let v = c as u32;
    (65 <= v && v <= 90) || (97 <= v && v <= 122)
}

/// `s` with consecutive repeated characters collapsed to one.
pub open spec fn dedup_adj(s: Seq<char>) -> Seq<char>
    decreases s.len(),
{
    if s.len() <= 1 {
        s
    } else {
        let rest = dedup_adj(s.drop_last());
        if s.last() == s[s.len() - 2] {
            rest
        } else {
            rest.push(s.last())
        }
    }
}

/// Collapses consecutive repeated characters, as the guess list is kept.
pub fn dedup_adjacent(v: &Vec<char>) -> (r: Vec<char>)
    ensures
        r@ == dedup_adj(v@),
{
    let mut out: Vec<char> = Vec::new();
    let mut i: usize = 0;
    proof {
        assert(v@.subrange(0, 0) =~= Seq::<char>::empty());
    }
    while i < v.len()
        invariant
            i <= v@.len(),
            out@ == dedup_adj(v@.subrange(0, i as int)),
        decreases v@.len() - i,
    {
        let ghost pre = v@.subrange(0, i as int);
        let ghost next = v@.subrange(0, i as int + 1);
        proof {
            assert(next.drop_last() =~= pre);
        }
        if i > 0 && v[i] == v[i - 1] {
        } else {
            out.push(v[i]);
        }
        i += 1;
    }
    proof {
        assert(v@.subrange(0, v@.len() as int) =~= v@);
    }
    out
}

/// Whether some character of `v` is `c`.
pub fn char_vec_contains(v: &Vec<char>, c: char) -> (r: bool)
    ensures
        r == v@.contains(c),
{
    let mut i: usize = 0;
    while i < v.len()
        invariant
            i <= v@.len(),
            forall|k: int| 0 <= k < i ==> v@[k] != c,
        decreases v@.len() - i,
    {
        if v[i] == c {
            return true;
        }
        i += 1;
    }
    false
}

/// The word as the player sees it: guessed characters shown, the rest
/// drawn as underscores.
pub open spec fn masked(word: Seq<char>, guesses: Seq<char>) -> Seq<char> {
    Seq::new(
        word.len(),
        |i: int|
            if guesses.contains(word[i]) {
                word[i]
            } else {
                '_'
            },
    )
}

/// Renders the word with every unguessed character hidden.
pub fn mask_word(word: &Vec<char>, guesses: &Vec<char>) -> (r: Vec<char>)
    ensures
        r@ == masked(word@, guesses@),
{
    let mut out: Vec<char> = Vec::new();
    let mut i: usize = 0;
    while i < word.len()
        invariant
            i <= word@.len(),
            out@.len() == i,
            forall|k: int| 0 <= k < i ==> out@[k] == masked(word@, guesses@)[k],
        decreases word@.len() - i,
    {
        let c = word[i];
        if char_vec_contains(guesses, c) {
            out.push(c);
        } else {
            out.push('_');
        }
        i += 1;
    }
    proof {
        assert(out@ =~= masked(word@, guesses@));
    }
    out
}

/// A fresh game on `word`, started at `now_ts`.
pub fn new_game(word: Vec<char>, now_ts: i64) -> (g: HangmanData)
    ensures
        g.attempts == MAX_ATTEMPTS,
        g.previous_guesses@.len() == 0,
        g.word == word,
        g.last_reply_time == now_ts,
{
    HangmanData { attempts: MAX_ATTEMPTS, previous_guesses: Vec::new(), word, last_reply_time: now_ts }
}

/// Whether a game last saw a reply too long before `now_ts`.
pub fn is_stale(last_reply_time: i64, now_ts: i64) -> (r: bool)
    ensures
        r == (now_ts - last_reply_time > STALE_AFTER_SECONDS),
{
    (now_ts as i128) - (last_reply_time as i128) > STALE_AFTER_SECONDS as i128
}

/// How the text a player sent is judged before it counts as a guess.
#[derive(Debug, Clone, Copy)]
pub enum GuessCheck {
    /// The message was empty; nothing happens.
    Empty,
    /// The first character is not an English letter.
    NotLetter,
    /// The trimmed message is more than one letter.
    NotSingleLetter,
    /// The guess to apply.
    Valid { guess: char },
}

/// Judges the text a player sent: its first character must be an English
/// letter and, once surrounding whitespace is trimmed away, it must be the
/// only character.
pub fn check_guess_message(message: &str) -> (r: GuessCheck)
    ensures
        message@.len() == 0 ==> r is Empty,
        message@.len() > 0 && !spec_is_ascii_letter(message@[0]) ==> r is NotLetter,
        message@.len() > 0 && spec_is_ascii_letter(message@[0]) && crate::textops::trim_of(
            message@,
        ).len() != 1 ==> r is NotSingleLetter,
        message@.len() > 0 && spec_is_ascii_letter(message@[0]) && crate::textops::trim_of(
            message@,
        ).len() == 1 ==> (r matches GuessCheck::Valid { guess } && guess == message@[0]),
{
    let len = message.unicode_len();
    if len == 0 {
        return GuessCheck::Empty;
    }
    let first = message.get_char(0);
    if !is_ascii_letter(first) {
        return GuessCheck::NotLetter;
    }
    let trimmed = crate::textops::trim_text(message);
    if trimmed.as_str().unicode_len() != 1 {
        return GuessCheck::NotSingleLetter;
    }
    GuessCheck::Valid { guess: first }
}

/// What one applied guess reports back.
#[derive(Debug, Clone)]
pub struct GuessResult {
    pub masked: Vec<char>,
    pub cleared: bool,
    pub over: bool,
}

/// Applies one guess to a running game: the uppercased letter joins the
/// guess list (collapsed against repetition), a miss costs an attempt, the
/// reply clock resets, and the rendered word decides whether the game is
/// won — or lost, when no attempts remain.
pub fn apply_guess(state: &mut HangmanData, guess: char, now_ts: i64) -> (r: GuessResult)
    requires
        old(state).attempts > 0,
    ensures
        ({
            let c = upper_of(guess);
            let guesses = dedup_adj(old(state).previous_guesses@.push(c));
            &&& final(state).previous_guesses@ == guesses
            &&& final(state).word == old(state).word
            &&& final(state).last_reply_time == now_ts
            &&& final(state).attempts == if old(state).word@.contains(c) {
                old(state).attempts as int
            } else {
                old(state).attempts - 1
            }
            &&& r.masked@ == masked(old(state).word@, guesses)
            &&& r.cleared == !r.masked@.contains('_')
            &&& r.over == (final(state).attempts == 0)
        }),
{
    let c = ascii_upper(guess);
    state.previous_guesses.push(c);
    let deduped = dedup_adjacent(&state.previous_guesses);
    state.previous_guesses = deduped;
    state.last_reply_time = now_ts;
    let masked_word = mask_word(&state.word, &state.previous_guesses);
    if !char_vec_contains(&state.word, c) {
        state.attempts = state.attempts - 1;
    }
    let cleared = !char_vec_contains(&masked_word, '_');
    let over = state.attempts == 0;
    GuessResult { masked: masked_word, cleared, over }
}

/// The position of the game a player runs in this channel, where one exists.
pub fn find_player_index(games: &Vec<(MinigameRequestUser, HangmanData)>, user_id: u64) -> (r:
    Option<usize>)
    ensures
        r matches Some(i) ==> i < games@.len() && games@[i as int].0.user_id == user_id && (
        forall|k: int| 0 <= k < i ==> (#[trigger] games@[k]).0.user_id != user_id),
        r is None ==> forall|k: int|
            0 <= k < games@.len() ==> (#[trigger] games@[k]).0.user_id != user_id,
{
    let mut i: usize = 0;
    while i < games.len()
        invariant
            i <= games@.len(),
            forall|k: int| 0 <= k < i ==> (#[trigger] games@[k]).0.user_id != user_id,
        decreases games@.len() - i,
    {
        if games[i].0.user_id == user_id {
            return Some(i);
        }
        i += 1;
    }
    None
}

/// Keeping a game means its player is not the one being removed.
pub open spec fn not_player(user_id: u64) -> spec_fn((MinigameRequestUser, HangmanData)) -> bool {
    |p: (MinigameRequestUser, HangmanData)| p.0.user_id != user_id
}

/// Drops every game this player runs in the channel, keeping the others in
/// order.
pub fn remove_player(games: Vec<(MinigameRequestUser, HangmanData)>, user_id: u64) -> (r: Vec<
    (MinigameRequestUser, HangmanData),
>)
    ensures
        r@ == games@.filter(not_player(user_id)),
{
    broadcast use vstd::prelude::Seq::filter_distributes_over_add;

    let ghost orig = games@;
    let mut rest = games;
    let mut out: Vec<(MinigameRequestUser, HangmanData)> = Vec::new();
    proof {
        assert(orig.subrange(0, 0) =~= Seq::<(MinigameRequestUser, HangmanData)>::empty());
        assert(Seq::<(MinigameRequestUser, HangmanData)>::empty().filter(not_player(user_id)) =~= Seq::<
            (MinigameRequestUser, HangmanData),
        >::empty());
        assert(rest@ =~= orig.subrange(0, orig.len() as int));
    }
    while rest.len() > 0
        invariant
            rest@.len() <= orig.len(),
            rest@ == orig.subrange(orig.len() - rest@.len(), orig.len() as int),
            out@ == orig.subrange(0, orig.len() - rest@.len()).filter(not_player(user_id)),
        decreases rest@.len(),
    {
        let ghost i = orig.len() - rest@.len();
        let ghost pre = orig.subrange(0, i as int);
        let ghost next = orig.subrange(0, i as int + 1);
        proof {
            reveal_with_fuel(Seq::<_>::filter, 2);
            assert(rest@[0] == orig[i as int]);
            assert(next =~= pre + seq![orig[i as int]]);
            assert(seq![orig[i as int]].drop_last() =~= Seq::<
                (MinigameRequestUser, HangmanData),
            >::empty());
        }
        let p = rest.remove(0);
        proof {
            assert(rest@ =~= orig.subrange(i as int + 1, orig.len() as int));
        }
        if p.0.user_id != user_id {
            proof {
                reveal_with_fuel(Seq::<_>::filter, 2);
                assert((not_player(user_id))(orig[i as int]));
                assert(seq![orig[i as int]].filter(not_player(user_id)) =~= seq![orig[i as int]]);
            }
            out.push(p);
        } else {
            proof {
                reveal_with_fuel(Seq::<_>::filter, 2);
                assert(!(not_player(user_id))(orig[i as int]));
                assert(seq![orig[i as int]].filter(not_player(user_id)) =~= Seq::<
                    (MinigameRequestUser, HangmanData),
                >::empty());
                assert(out@ + Seq::<(MinigameRequestUser, HangmanData)>::empty() =~= out@);
            }
        }
    }
    proof {
        assert(orig.subrange(0, orig.len() as int) =~= orig);
    }
    out
}

} // verus!
