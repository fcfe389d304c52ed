use vstd::prelude::*;

verus! {

/// Colours and label of a player's pointer.
#[derive(Debug, Clone, Copy, PartialEq, Eq)]
pub struct PlayerColor {
    pub name: &'static str,
    pub primary: &'static str,
    pub glow: &'static str,
}

/// The palette entry a player number uses: players 1 to 4 use entries 0 to
/// 3, any other number uses entry 0.
pub open spec fn palette_index(player_id: usize) -> int {
    if 1 <= player_id <= 4 {
        player_id - 1
    } else {
        0
    }
}

/// Name, main colour and glow colour of palette entry `index`.
pub open spec fn palette(index: int) -> (Seq<char>, Seq<char>, Seq<char>) {
    if index == 0 {
        ("P1 (Azul)"@, "#00a8e8"@, "rgba(0, 168, 232, 0.6)"@)
    } else if index == 1 {
        ("P2 (Vermelho)"@, "#ff4d4f"@, "rgba(255, 77, 79, 0.6)"@)
    } else if index == 2 {
        ("P3 (Verde)"@, "#52c41a"@, "rgba(82, 196, 26, 0.6)"@)
    } else {
        ("P4 (Amarelo)"@, "#faad14"@, "rgba(250, 173, 20, 0.6)"@)
    }
}

/// The colours of the pointer of player number `player_id`.
pub fn player_color(player_id: usize) -> (color: PlayerColor)
    ensures
        (color.name@, color.primary@, color.glow@) == palette(palette_index(player_id)),
{
    if player_id == 2 {
        PlayerColor { name: "P2 (Vermelho)", primary: "#ff4d4f", glow: "rgba(255, 77, 79, 0.6)" }
    } else if player_id == 3 {
        PlayerColor { name: "P3 (Verde)", primary: "#52c41a", glow: "rgba(82, 196, 26, 0.6)" }
    } else if player_id == 4 {
        PlayerColor { name: "P4 (Amarelo)", primary: "#faad14", glow: "rgba(250, 173, 20, 0.6)" }
    } else {
        PlayerColor { name: "P1 (Azul)", primary: "#00a8e8", glow: "rgba(0, 168, 232, 0.6)" }
    }
}

} // verus!
