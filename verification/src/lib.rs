//! Utilities for working with Distance leaderboards: listing the official
//! levels of each game mode, building the string key that addresses a level's
//! leaderboard on the Steamworks platform, and formatting a raw time or score
//! obtained from that platform for display.

pub mod digits;
pub mod format_score;
pub mod official_level_names;

pub use format_score::{NegativeScoreError, format_score};

use vstd::prelude::*;

verus! {

/// All Distance game modes that include leaderboards.
///
/// Each variant has a fixed numeric identifier, returned by
/// [`LeaderboardGameMode::numeric_id`], that matches the game mode's id in the
/// Distance game code and is embedded in generated leaderboard keys.
#[derive(Debug, Copy, Clone, Hash, Eq, PartialEq, Ord, PartialOrd, Structural)]
pub enum LeaderboardGameMode {
    Sprint,
    Stunt,
    Challenge,
}

impl LeaderboardGameMode {
    /// The fixed wire identifier of this game mode: Sprint is 1, Stunt is 2,
    /// and Challenge is 8.
    pub open spec fn spec_numeric_id(self) -> u8 {
        match self {
            LeaderboardGameMode::Sprint => 1,
            LeaderboardGameMode::Stunt => 2,
            LeaderboardGameMode::Challenge => 8,
        }
    }

    /// Returns the numeric identifier of the game mode, as the Distance game
    /// code and the Steamworks platform know it.
    pub fn numeric_id(self) -> (id: u8)
        ensures
            id == self.spec_numeric_id(),
    {
        match self {
            LeaderboardGameMode::Sprint => 1,
            LeaderboardGameMode::Stunt => 2,
            LeaderboardGameMode::Challenge => 8,
        }
    }

    /// The canonical English name of this game mode.
    pub open spec fn spec_name(self) -> Seq<char> {
        match self {
            LeaderboardGameMode::Sprint => "Sprint"@,
            LeaderboardGameMode::Stunt => "Stunt"@,
            LeaderboardGameMode::Challenge => "Challenge"@,
        }
    }

    /// Returns the string representation of the game mode name.
    pub fn name(self) -> (s: &'static str)
        ensures
            s@ == self.spec_name(),
    {
        match self {
            LeaderboardGameMode::Sprint => "Sprint",
            LeaderboardGameMode::Stunt => "Stunt",
            LeaderboardGameMode::Challenge => "Challenge",
        }
    }

    /// Equivalent to calling [`official_level_names()`] with `self`.
    pub fn official_level_names(self) -> (names: Vec<&'static str>)
        ensures
            names@.len() == official_level_names_spec(self).len(),
            forall|i: int|
                0 <= i < names@.len() ==> names@[i]@ == official_level_names_spec(self)[i],
    {
        official_level_names(self)
    }

    /// Equivalent to calling [`official_level_leaderboard_names()`] with
    /// `self`.
    pub fn official_level_leaderboard_names(self) -> (r: Result<
        Vec<String>,
        LevelNameTooLongError,
    >)
        ensures
            ({
                let names = official_level_names_spec(self);
                match r {
                    Ok(keys) => {
                        &&& keys@.len() == names.len()
                        &&& forall|i: int|
                            0 <= i < keys@.len() ==> keys@[i]@ == leaderboard_name_chars(
                                names[i],
                                self,
                                None,
                            )
                        &&& forall|i: int|
                            0 <= i < keys@.len() ==> leaderboard_name_byte_len(
                                #[trigger] leaderboard_name_chars(names[i], self, None),
                            ) <= MAX_LEADERBOARD_NAME_BYTES
                    },
                    Err(e) => exists|i: int|
                        0 <= i < names.len() && e.spec_leaderboard_name()
                            == leaderboard_name_chars(names[i], self, None)
                            && leaderboard_name_byte_len(
                            #[trigger] leaderboard_name_chars(names[i], self, None),
                        ) > MAX_LEADERBOARD_NAME_BYTES,
                }
            }),
    {
        official_level_leaderboard_names(self)
    }
}

/// The longest leaderboard name the Steamworks platform accepts, in bytes.
pub const MAX_LEADERBOARD_NAME_BYTES: usize = 128;

/// The number of bytes of the UTF-8 encoding of `name`, which is how the
/// Steamworks platform measures a leaderboard name against its limit.
pub open spec fn leaderboard_name_byte_len(name: Seq<char>) -> nat {
    vstd::utf8::encode_utf8(name).len()
}

/// The leaderboard name for a level: the level identifier, the game mode's
/// numeric identifier and, for workshop levels, the author's Steam id, joined
/// by `'_'` and closed with the literal suffix `_stable`.
pub open spec fn leaderboard_name_chars(
    level: Seq<char>,
    game_mode: LeaderboardGameMode,
    author_steam_id: Option<u64>,
) -> Seq<char> {
    match author_steam_id {
        Some(id) => level + "_"@ + digits::dec_digits(game_mode.spec_numeric_id() as nat) + "_"@
            + digits::dec_digits(id as nat) + "_stable"@,
        None => level + "_"@ + digits::dec_digits(game_mode.spec_numeric_id() as nat)
            + "_stable"@,
    }
}

/// The error returned by [`create_leaderboard_name_string`] when the
/// resulting leaderboard name is too long.
#[derive(Debug, Clone, Hash, Eq, PartialEq, Ord, PartialOrd)]
pub struct LevelNameTooLongError {
    leaderboard_name: String,
}

impl LevelNameTooLongError {
    /// The over-long leaderboard name carried by this error.
    pub closed spec fn spec_leaderboard_name(&self) -> Seq<char> {
        self.leaderboard_name@
    }

    /// Consumes this error, returning the invalid leaderboard name.
    pub fn into_leaderboard_name(self) -> (name: String)
        ensures
            name@ == self.spec_leaderboard_name(),
    {
        self.leaderboard_name
    }

    /// The diagnostic text describing this error.
    pub open spec fn spec_message(&self) -> Seq<char> {
        "The generated leaderboard name \""@ + self.spec_leaderboard_name()
            + "\" is invalid because it's too long. The maximum valid length is 128 bytes, but it has a length of "@
            + digits::dec_digits(leaderboard_name_byte_len(self.spec_leaderboard_name()))
            + " bytes."@
    }

    /// Returns a diagnostic description of this error.
    pub fn message(&self) -> (text: String)
        ensures
            text@ == self.spec_message(),
    {
        let byte_len = self.leaderboard_name.as_str().as_bytes().len();
        let mut text = String::from_str("The generated leaderboard name \"");
        text.append(self.leaderboard_name.as_str());
        text.append(
            "\" is invalid because it's too long. The maximum valid length is 128 bytes, but it has a length of ",
        );
        text.append(digits::dec_string(byte_len as u64).as_str());
        text.append(" bytes.");
        text
    }
}

/// Creates a level's leaderboard name string, which is needed to get a
/// level's leaderboard from the Steamworks API.
///
/// For official levels, `level` is the level's name. For workshop levels,
/// `level` is the level's filename without the `.bytes` extension (which can
/// be different from the level's title). `author_steam_id` must be given for
/// workshop levels, and `None` for official levels.
///
/// # Errors
///
/// The Steamworks API imposes a limit on the byte length of leaderboard
/// names, so this function errors if a sufficiently long level name is given;
/// the error carries the full over-long name, never a truncation of it.
pub fn create_leaderboard_name_string(
    level: &str,
    game_mode: LeaderboardGameMode,
    author_steam_id: Option<u64>,
) -> (r: Result<String, LevelNameTooLongError>)
    ensures
        ({
            let key = leaderboard_name_chars(level@, game_mode, author_steam_id);
            &&& (r is Ok <==> leaderboard_name_byte_len(key) <= MAX_LEADERBOARD_NAME_BYTES)
            &&& (r matches Ok(name) ==> name@ == key)
            &&& (r matches Err(e) ==> e.spec_leaderboard_name() == key)
        }),
{
    let mut leaderboard_name = String::from_str(level);
    leaderboard_name.append("_");
    leaderboard_name.append(digits::dec_string(game_mode.numeric_id() as u64).as_str());
    if let Some(id) = author_steam_id {
        leaderboard_name.append("_");
        leaderboard_name.append(digits::dec_string(id).as_str());
    }
    leaderboard_name.append("_stable");

    let byte_len = leaderboard_name.as_str().as_bytes().len();
    if byte_len <= MAX_LEADERBOARD_NAME_BYTES {
        Ok(leaderboard_name)
    } else {
        Err(LevelNameTooLongError { leaderboard_name })
    }
}

/// The level names of all official levels for the given game mode, in
/// presentation order.
pub open spec fn official_level_names_spec(game_mode: LeaderboardGameMode) -> Seq<Seq<char>> {
    match game_mode {
        LeaderboardGameMode::Sprint => official_level_names::sprint_level_names(),
        LeaderboardGameMode::Stunt => official_level_names::stunt_level_names(),
        LeaderboardGameMode::Challenge => official_level_names::challenge_level_names(),
    }
}

/// Returns the level names of all official levels for the given game mode, in
/// presentation order.
pub fn official_level_names(game_mode: LeaderboardGameMode) -> (names: Vec<&'static str>)
    ensures
        names@.len() == official_level_names_spec(game_mode).len(),
        forall|i: int|
            0 <= i < names@.len() ==> names@[i]@ == official_level_names_spec(game_mode)[i],
{
    match game_mode {
        LeaderboardGameMode::Sprint => official_level_names::sprint_names_vec(),
        LeaderboardGameMode::Stunt => official_level_names::stunt_names_vec(),
        LeaderboardGameMode::Challenge => official_level_names::challenge_names_vec(),
    }
}

/// Returns the leaderboard name of every official level for the given game
/// mode, in presentation order: one entry per official level name, each the
/// string [`create_leaderboard_name_string`] returns for that name with no
/// author.
///
/// The official rosters are curated to satisfy the platform's length limit,
/// so an error here indicates corrupt roster data rather than a normal
/// runtime failure; it is surfaced rather than skipped.
pub fn official_level_leaderboard_names(game_mode: LeaderboardGameMode) -> (r: Result<
    Vec<String>,
    LevelNameTooLongError,
>)
    ensures
        ({
            let names = official_level_names_spec(game_mode);
            match r {
                Ok(keys) => {
                    &&& keys@.len() == names.len()
                    &&& forall|i: int|
                        0 <= i < keys@.len() ==> keys@[i]@ == leaderboard_name_chars(
                            names[i],
                            game_mode,
                            None,
                        )
                    &&& forall|i: int|
                        0 <= i < keys@.len() ==> leaderboard_name_byte_len(
                            #[trigger] leaderboard_name_chars(names[i], game_mode, None),
                        ) <= MAX_LEADERBOARD_NAME_BYTES
                },
                Err(e) => exists|i: int|
                    0 <= i < names.len() && e.spec_leaderboard_name() == leaderboard_name_chars(
                        names[i],
                        game_mode,
                        None,
                    ) && leaderboard_name_byte_len(
                        #[trigger] leaderboard_name_chars(names[i], game_mode, None),
                    ) > MAX_LEADERBOARD_NAME_BYTES,
            }
        }),
{
    let names = official_level_names(game_mode);
    let mut keys: Vec<String> = Vec::new();
    let mut i: usize = 0;
    while i < names.len()
        invariant
            i <= names@.len(),
            names@.len() == official_level_names_spec(game_mode).len(),
            forall|j: int|
                0 <= j < names@.len() ==> names@[j]@ == official_level_names_spec(game_mode)[j],
            keys@.len() == i,
            forall|j: int|
                0 <= j < i as int ==> keys@[j]@ == leaderboard_name_chars(
                    official_level_names_spec(game_mode)[j],
                    game_mode,
                    None,
                ),
            forall|j: int|
                0 <= j < i as int ==> leaderboard_name_byte_len(
                    #[trigger] leaderboard_name_chars(
                        official_level_names_spec(game_mode)[j],
                        game_mode,
                        None,
                    ),
                ) <= MAX_LEADERBOARD_NAME_BYTES,
        decreases names@.len() - i,
    {
        match create_leaderboard_name_string(names[i], game_mode, None) {
            Ok(key) => keys.push(key),
            Err(e) => {
                proof {
                    let names_spec = official_level_names_spec(game_mode);
                    assert(names@[i as int]@ == names_spec[i as int]);
                    assert(e.spec_leaderboard_name() == leaderboard_name_chars(
                        names_spec[i as int],
                        game_mode,
                        None,
                    ));
                    assert(leaderboard_name_byte_len(
                        leaderboard_name_chars(names_spec[i as int], game_mode, None),
                    ) > MAX_LEADERBOARD_NAME_BYTES);
                }
                return Err(e);
            },
        }
        i += 1;
    }
    Ok(keys)
}

/// Building a leaderboard name is deterministic: any two names built from the
/// same level identifier, game mode and author are the same string.
pub proof fn lemma_leaderboard_name_deterministic(
    level: Seq<char>,
    game_mode: LeaderboardGameMode,
    author_steam_id: Option<u64>,
    first: Seq<char>,
    second: Seq<char>,
)
    requires
        first == leaderboard_name_chars(level, game_mode, author_steam_id),
        second == leaderboard_name_chars(level, game_mode, author_steam_id),
    ensures
        first == second,
{
}

/// The name recovered from a [`LevelNameTooLongError`] is exactly the string
/// that [`create_leaderboard_name_string`] would have returned on success had
/// the length limit not applied: both equal the constructed leaderboard name.
pub proof fn lemma_error_preserves_leaderboard_name(
    level: Seq<char>,
    game_mode: LeaderboardGameMode,
    author_steam_id: Option<u64>,
    recovered: Seq<char>,
    successful: Seq<char>,
)
    requires
        recovered == leaderboard_name_chars(level, game_mode, author_steam_id),
        successful == leaderboard_name_chars(level, game_mode, author_steam_id),
    ensures
        recovered == successful,
{
}

} // verus!
