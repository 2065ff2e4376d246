//! Which game an archive belongs to, told by the name of its file.

use vstd::prelude::*;

verus! {

/// The game variants that archives are known from. The variant picks the
/// table of display names.
#[allow(non_camel_case_types)]
#[derive(Clone, Copy, Debug, PartialEq, Eq, Structural)]
pub enum GameType {
    CLOUDS,
    DARKSIDE,
    /// Recognised, but no table of names exists for it.
    SWORDS,
    INTRO,
    UNKNOWN,
}

/// The variant that a file stem in lower case stands for. A stem outside the
/// table is no error: it stands for `UNKNOWN`.
pub open spec fn game_of_stem(stem: Seq<char>) -> GameType {
    if stem == seq!['x', 'e', 'e', 'n'] {
        GameType::CLOUDS
    } else if stem == seq!['d', 'a', 'r', 'k'] {
        GameType::DARKSIDE
    } else if stem == seq!['s', 'w', 'r', 'd'] {
        GameType::SWORDS
    } else if stem == seq!['i', 'n', 't', 'r', 'o'] {
        GameType::INTRO
    } else {
        GameType::UNKNOWN
    }
}

/// `piece` stands somewhere in `text`, in one piece.
pub open spec fn is_piece_of(piece: Seq<char>, text: Seq<char>) -> bool {
    exists|from: int, to: int|
        0 <= from <= to <= text.len() && piece == #[trigger] text.subrange(from, to)
}

/// `game_type` is the variant of some piece of `file_path`, taken in lower
/// case.
pub open spec fn path_names_game(file_path: Seq<char>, game_type: GameType) -> bool {
    exists|from: int, to: int|
        0 <= from <= to <= file_path.len() && game_type == game_of_stem(
            lowercase_of(#[trigger] file_path.subrange(from, to)),
        )
}

/// `path` is a file name and nothing else, on every platform: it is not
/// empty, it is not `.` or `..`, and it holds none of `/`, `\` and `:`, the
/// characters that part the components of a path or end its prefix on one
/// platform or another.
pub open spec fn is_bare_file_name(path: Seq<char>) -> bool {
    &&& path.len() > 0
    &&& path != seq!['.']
    &&& path != seq!['.', '.']
    &&& forall|i: int|
        0 <= i < path.len() ==> path[i] != '/' && path[i] != '\\' && path[i] != ':'
}

/// The place of the last `.` in `text`, or -1 where it holds none.
pub open spec fn last_dot(text: Seq<char>) -> int
    decreases text.len(),
{
    if text.len() == 0 {
        -1
    } else if text.last() == '.' {
        text.len() - 1
    } else {
        last_dot(text.drop_last())
    }
}

/// The stem of a bare file name: the text before its last `.`, or all of it
/// where it holds no `.` or only a leading one.
pub open spec fn bare_stem(name: Seq<char>) -> Seq<char> {
    if last_dot(name) <= 0 {
        name
    } else {
        name.take(last_dot(name))
    }
}

/// The variant of an archive whose file name has the stem `stem`, in any
/// case, or has no stem at all.
pub open spec fn game_of_file_stem(stem: Option<Seq<char>>) -> GameType {
    match stem {
        Some(text) => game_of_stem(lowercase_of(text)),
        None => GameType::UNKNOWN,
    }
}

/// The text of a stem, where there is one.
pub open spec fn stem_text(stem: Option<&str>) -> Option<Seq<char>> {
    match stem {
        Some(text) => Some(text@),
        None => None,
    }
}

/// The text of a stem that owns it, where there is one.
pub open spec fn owned_text(stem: Option<String>) -> Option<Seq<char>> {
    match stem {
        Some(text) => Some(text@),
        None => None,
    }
}

/// The text that `str::to_lowercase` gives for `text`: its lower-case form
/// as Unicode defines it. One character may become several, and what a
/// character becomes may depend on its neighbours.
pub uninterp spec fn lowercase_of(text: Seq<char>) -> Seq<char>;

/// `str::to_lowercase`. The result depends on the text alone, not on a
/// locale.
#[verifier::external_body]
fn to_lowercase(text: &str) -> (lower: String)
    ensures
        lower@ == lowercase_of(text@),
{
    text.to_lowercase()
}

/// `std::path::Path::file_stem`, on the path that `Path::new` makes of the
/// text, with the stem read back as text by `OsStr::to_str`: the last
/// component of the path without its extension, or `None` where the path has
/// no last component. Which characters part the components depends on the
/// platform, so the contract says what holds on each of them. The stem is a
/// piece of the path. A path that is a bare file name has a stem, which is
/// the text before its last `.`, or all of it where it holds no `.` or only a
/// leading one. The empty path has none.
#[verifier::external_body]
fn file_stem(file_path: &str) -> (stem: Option<String>)
    ensures
        stem matches Some(text) ==> is_piece_of(text@, file_path@),
        is_bare_file_name(file_path@) ==> owned_text(stem) == Some(bare_stem(file_path@)),
        file_path@.len() == 0 ==> stem is None,
{
    Some(std::path::Path::new(file_path).file_stem()?.to_str()?.to_owned())
}

/// The game variant that a file stem in lower case stands for: `xeen`,
/// `dark`, `swrd` and `intro` each stand for one, everything else for
/// `UNKNOWN`.
pub fn game_type_of_stem(stem: &str) -> (game_type: GameType)
    ensures
        game_type == game_of_stem(stem@),
{
    proof {
        reveal_strlit("xeen");
        reveal_strlit("dark");
        reveal_strlit("swrd");
        reveal_strlit("intro");
    }
    assert("xeen"@ =~= seq!['x', 'e', 'e', 'n']);
    assert("dark"@ =~= seq!['d', 'a', 'r', 'k']);
    assert("swrd"@ =~= seq!['s', 'w', 'r', 'd']);
    assert("intro"@ =~= seq!['i', 'n', 't', 'r', 'o']);
    let stem = String::from_str(stem);
    if stem == String::from_str("xeen") {
        GameType::CLOUDS
    } else if stem == String::from_str("dark") {
        GameType::DARKSIDE
    } else if stem == String::from_str("swrd") {
        GameType::SWORDS
    } else if stem == String::from_str("intro") {
        GameType::INTRO
    } else {
        GameType::UNKNOWN
    }
}

/// The game variant of an archive whose file name has the given stem: the
/// variant that the stem stands for once it is in lower case, and `UNKNOWN`
/// for a file name without a stem.
pub fn game_type_of_file_stem(stem: Option<&str>) -> (game_type: GameType)
    ensures
        game_type == game_of_file_stem(stem_text(stem)),
{
    match stem {
        Some(text) => {
            let lower = to_lowercase(text);
            game_type_of_stem(lower.as_str())
        },
        None => GameType::UNKNOWN,
    }
}

/// The game variant of an archive, told by the stem of its file name without
/// regard to case. A path without a file name, and a stem outside the table,
/// give `UNKNOWN`.
///
/// For a path that is a bare file name, such as `XEEN.CC`, the stem is the
/// same on every platform, and the variant is that of the stem. For a path
/// with directories the platform says where the file name begins; whatever it
/// says, a variant other than `UNKNOWN` is given only where a piece of the
/// path spells its name.
pub fn get_game_type(file_path: &str) -> (game_type: GameType)
    ensures
        is_bare_file_name(file_path@) ==> game_type == game_of_file_stem(
            Some(bare_stem(file_path@)),
        ),
        file_path@.len() == 0 ==> game_type == GameType::UNKNOWN,
        game_type != GameType::UNKNOWN ==> path_names_game(file_path@, game_type),
{
    match file_stem(file_path) {
        Some(stem) => game_type_of_file_stem(Some(stem.as_str())),
        None => game_type_of_file_stem(None),
    }
}

} // verus!
