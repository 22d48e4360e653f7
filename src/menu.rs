use vstd::prelude::*;

use crate::config::{CollisionPolicy, FragmentationMode, GameConfig, LeaderboardMode, PhysicsMode, PlayerControllerMode};
use crate::scoreboard::{Leaderboard, ScoreEntry, ScoreRecord};
use crate::text::{decimal, pad_left, push_decimal_padded};

verus! {

/// The text of a list of lines.
pub open spec fn lines_view(v: Seq<String>) -> Seq<Seq<char>> {
    v.map_values(|l: String| l@)
}

pub open spec fn spec_fragmentation_label(mode: FragmentationMode) -> Seq<char> {
    match mode {
        FragmentationMode::Off => "Off"@,
        FragmentationMode::ClassicSplit => "ClassicSplit"@,
        FragmentationMode::SliceOnly => "SliceOnly"@,
        FragmentationMode::Explode => "Explode"@,
        FragmentationMode::Full => "Full"@,
    }
}

pub open spec fn spec_leaderboard_label(mode: LeaderboardMode) -> Seq<char> {
    match mode {
        LeaderboardMode::Off => "Off"@,
        LeaderboardMode::LocalTop10 => "LocalTop10"@,
    }
}

pub open spec fn spec_upgrade_label(enabled: bool) -> Seq<char> {
    if enabled {
        "On"@
    } else {
        "Off"@
    }
}

pub open spec fn spec_controller_label(mode: PlayerControllerMode) -> Seq<char> {
    match mode {
        PlayerControllerMode::Human => "Human"@,
        PlayerControllerMode::Ai { .. } => "AI"@,
    }
}

pub open spec fn spec_physics_label(mode: PhysicsMode) -> Seq<char> {
    match mode {
        PhysicsMode::Off => "Off"@,
        PhysicsMode::Arcade => "Arcade"@,
        PhysicsMode::Lite => "Lite"@,
    }
}

pub open spec fn spec_collision_label(mode: CollisionPolicy) -> Seq<char> {
    match mode {
        CollisionPolicy::PlayerOnly => "PlayerOnly"@,
        CollisionPolicy::BigOnly => "BigOnly"@,
        CollisionPolicy::Full => "Full"@,
    }
}

pub fn fragmentation_label(mode: &FragmentationMode) -> (r: &'static str)
    ensures
        r@ == spec_fragmentation_label(*mode),
{
    match mode {
        FragmentationMode::Off => "Off",
        FragmentationMode::ClassicSplit => "ClassicSplit",
        FragmentationMode::SliceOnly => "SliceOnly",
        FragmentationMode::Explode => "Explode",
        FragmentationMode::Full => "Full",
    }
}

pub fn leaderboard_label(mode: &LeaderboardMode) -> (r: &'static str)
    ensures
        r@ == spec_leaderboard_label(*mode),
{
    match mode {
        LeaderboardMode::Off => "Off",
        LeaderboardMode::LocalTop10 => "LocalTop10",
    }
}

pub fn upgrade_label(enabled: bool) -> (r: &'static str)
    ensures
        r@ == spec_upgrade_label(enabled),
{
    if enabled {
        "On"
    } else {
        "Off"
    }
}

pub fn controller_label(mode: &PlayerControllerMode) -> (r: &'static str)
    ensures
        r@ == spec_controller_label(*mode),
{
    match mode {
        PlayerControllerMode::Human => "Human",
        PlayerControllerMode::Ai { .. } => "AI",
    }
}

pub fn physics_label(mode: &PhysicsMode) -> (r: &'static str)
    ensures
        r@ == spec_physics_label(*mode),
{
    match mode {
        PhysicsMode::Off => "Off",
        PhysicsMode::Arcade => "Arcade",
        PhysicsMode::Lite => "Lite",
    }
}

pub fn collision_label(mode: &CollisionPolicy) -> (r: &'static str)
    ensures
        r@ == spec_collision_label(*mode),
{
    match mode {
        CollisionPolicy::PlayerOnly => "PlayerOnly",
        CollisionPolicy::BigOnly => "BigOnly",
        CollisionPolicy::Full => "Full",
    }
}

fn line(s: &str) -> (r: String)
    ensures
        r@ == s@,
{
    s.to_owned()
}

fn labelled(prefix: &str, label: &str) -> (r: String)
    ensures
        r@ == prefix@ + label@,
{
    let mut r = prefix.to_owned();
    r.append(label);
    r
}

pub open spec fn main_menu_text() -> Seq<Seq<char>> {
    seq![
        "ASTEROIDS — SYSTEMS"@,
        ""@,
        "P - Play"@,
        "O - Options"@,
        "L - Leaderboard"@,
        "Esc - Quit"@,
        ""@,
        "Controls:"@,
        "W/Up - thrust, A/D or ←/→ - rotate"@,
        "Space - primary fire, Shift - secondary fire"@,
        "U - toggle autopilot"@,
        "I - cycle autopilot profile"@,
        "P - pause/resume once playing, T - toggle stats"@,
    ]
}

/// The lines of the main menu box, top to bottom.
pub fn draw_main_menu() -> (r: Vec<String>)
    ensures
        lines_view(r@) == main_menu_text(),
{
    let r = vec![
        line("ASTEROIDS — SYSTEMS"),
        line(""),
        line("P - Play"),
        line("O - Options"),
        line("L - Leaderboard"),
        line("Esc - Quit"),
        line(""),
        line("Controls:"),
        line("W/Up - thrust, A/D or ←/→ - rotate"),
        line("Space - primary fire, Shift - secondary fire"),
        line("U - toggle autopilot"),
        line("I - cycle autopilot profile"),
        line("P - pause/resume once playing, T - toggle stats"),
    ];
    assert(lines_view(r@) =~= main_menu_text());
    r
}

pub open spec fn options_menu_text(config: GameConfig, preset_label: Seq<char>) -> Seq<Seq<char>> {
    seq![
        "OPTIONS"@,
        ""@,
        "C - Collision Policy: "@ + spec_collision_label(config.collision_policy),
        "K - Physics Mode: "@ + spec_physics_label(config.physics_mode),
        "F - Fragmentation Mode: "@ + spec_fragmentation_label(config.fragmentation_mode),
        "L - Leaderboard Mode: "@ + spec_leaderboard_label(config.leaderboard_mode),
        "G - Upgrades: "@ + spec_upgrade_label(config.upgrades_enabled),
        "Y - Preset: "@ + preset_label,
        ""@,
        "Enter / Esc - Back"@,
    ]
}

/// The lines of the options box, top to bottom.
pub fn draw_options_menu(config: &GameConfig, preset_label: &str) -> (r: Vec<String>)
    ensures
        lines_view(r@) == options_menu_text(*config, preset_label@),
{
    let r = vec![
        line("OPTIONS"),
        line(""),
        labelled("C - Collision Policy: ", collision_label(&config.collision_policy)),
        labelled("K - Physics Mode: ", physics_label(&config.physics_mode)),
        labelled("F - Fragmentation Mode: ", fragmentation_label(&config.fragmentation_mode)),
        labelled("L - Leaderboard Mode: ", leaderboard_label(&config.leaderboard_mode)),
        labelled("G - Upgrades: ", upgrade_label(config.upgrades_enabled)),
        labelled("Y - Preset: ", preset_label),
        line(""),
        line("Enter / Esc - Back"),
    ];
    assert(lines_view(r@) =~= options_menu_text(*config, preset_label@));
    r
}

pub open spec fn game_over_text(score: u32) -> Seq<Seq<char>> {
    seq![
        "GAME OVER"@,
        ""@,
        "GAME OVER  SCORE "@ + pad_left(decimal(score as nat), '0', 6),
        ""@,
        "ENTER / ESC - RETURN TO MENU"@,
    ]
}

/// The lines of the game-over box; the score is zero-padded to six digits.
pub fn draw_game_over(score: u32) -> (r: Vec<String>)
    ensures
        lines_view(r@) == game_over_text(score),
{
    proof {
        reveal_strlit("0");
    }
    let mut msg = line("GAME OVER  SCORE ");
    push_decimal_padded(&mut msg, score as u64, "0", 6);
    let r = vec![line("GAME OVER"), line(""), msg, line(""), line("ENTER / ESC - RETURN TO MENU")];
    assert(lines_view(r@) =~= game_over_text(score));
    r
}

/// A leaderboard row: rank right-aligned in two columns, score right-aligned in six, then the name.
pub open spec fn leaderboard_row(idx: nat, e: ScoreRecord) -> Seq<char> {
    pad_left(decimal(idx + 1), ' ', 2) + ". "@ + pad_left(decimal(e.score as nat), ' ', 6) + " pts - "@ + e.name
}

pub open spec fn leaderboard_text(board: Seq<ScoreRecord>) -> Seq<Seq<char>> {
    let body = if board.len() == 0 {
        seq!["No runs recorded yet."@]
    } else {
        Seq::new(board.len(), |i: int| leaderboard_row(i as nat, board[i]))
    };
    seq!["LEADERBOARD"@, ""@] + body + seq![""@, "Esc / Enter - Back"@]
}

/// The lines of the leaderboard box: one row per entry, best first.
pub fn draw_leaderboard_menu(leaderboard: &Leaderboard) -> (r: Vec<String>)
    ensures
        lines_view(r@) == leaderboard_text(leaderboard@),
{
    proof {
        reveal_strlit(" ");
    }
    let entries: &[ScoreEntry] = leaderboard.entries();
    let ghost board = leaderboard@;
    let mut r = vec![line("LEADERBOARD"), line("")];
    if entries.len() == 0 {
        r.push(line("No runs recorded yet."));
        assert(lines_view(r@).take(2) =~= seq!["LEADERBOARD"@, ""@]);
    } else {
        let mut i: usize = 0;
        while i < entries.len()
            invariant
                board == leaderboard@,
                entries@.map_values(|e: ScoreEntry| e@) == board,
                i <= entries@.len(),
                r@.len() == 2 + i,
                lines_view(r@).take(2) == seq!["LEADERBOARD"@, ""@],
                forall|j: int| 0 <= j < i ==> #[trigger] r@[2 + j]@ == leaderboard_row(j as nat, board[j]),
            decreases entries@.len() - i,
        {
            proof {
                reveal_strlit(" ");
            }
            let e = &entries[i];
            assert(board[i as int] == e@);
            let mut row = String::new();
            push_decimal_padded(&mut row, i as u64 + 1, " ", 2);
            row.append(". ");
            push_decimal_padded(&mut row, e.score as u64, " ", 6);
            row.append(" pts - ");
            row.append(e.name.as_str());
            assert(row@ =~= leaderboard_row(i as nat, board[i as int]));
            let ghost before = r@;
            r.push(row);
            assert(lines_view(r@).take(2) =~= lines_view(before).take(2));
            i = i + 1;
        }
    }
    let ghost mid = r@;
    r.push(line(""));
    r.push(line("Esc / Enter - Back"));
    let ghost want = leaderboard_text(board);
    proof {
        let n = if board.len() == 0 { 1int } else { board.len() as int };
        assert(r@.len() == n + 4);
        assert(want.len() == n + 4);
        assert forall|k: int| 0 <= k < n + 4 implies lines_view(r@)[k] == want[k] by {
            if k < 2 {
                assert(lines_view(mid).take(2)[k] == lines_view(mid)[k]);
            } else if k < n + 2 {
                if board.len() > 0 {
                    assert(r@[2 + (k - 2)] == mid[2 + (k - 2)]);
                }
            }
        }
    }
    assert(lines_view(r@) =~= want);
    r
}

} // verus!
