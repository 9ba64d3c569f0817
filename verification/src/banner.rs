//! The DOOM logo in ASCII art, drawn on the title screen and in the HUD.
use vstd::prelude::*;
use crate::vga::text_of;

verus! {

/// Lines of the logo.
pub const BANNER_LINES: usize = 19;

/// The characters of each line of the logo.
pub open spec fn doom_banner() -> Seq<Seq<char>> {
    seq![
        "=================     ===============     ===============   ========  ========"@,
        "\\ . . . . . . .\\   //. . . . . . .\\   //. . . . . . .\\  \\. . .\\// . . //"@,
        "||. . ._____. . .|| ||. . ._____. . .|| ||. . ._____. . .|| || . . .\\/ . . .||"@,
        "|| . .||   ||. . || || . .||   ||. . || || . .||   ||. . || ||. . . . . . . ||"@,
        "||. . ||   || . .|| ||. . ||   || . .|| ||. . ||   || . .|| || . | . . . . .||"@,
        "|| . .||   ||. _-|| ||-_ .||   ||. . || || . .||   ||. _-|| ||-_.|\\ . . . . ||"@,
        "||. . ||   ||-'  || ||  `-||   || . .|| ||. . ||   ||-'  || ||  `|\\_ . .|. .||"@,
        "|| . _||   ||    || ||    ||   ||_ . || || . _||   ||    || ||   |\\ `-_/| . ||"@,
        "||_-' ||  .|/    || ||    \\|.  || `-_|| ||_-' ||  .|/    || ||   | \\  / |-_.||"@,
        "||    ||_-'      || ||      `-_||    || ||    ||_-'      || ||   | \\  / |  `||"@,
        "||    `'         || ||         `'    || ||    `'         || ||   | \\  / |   ||"@,
        "||            .===' `===.         .==='.`===.         .===' /==. |  \\/  |   ||"@,
        "||         .=='   \\_|-_ `===. .==='   _|_   `===. .===' _-|/   `==  \\/  |   ||"@,
        "||      .=='    _-'    `-_  `='    _-'   `-_    `='  _-'   `-_  /|  \\/  |   ||"@,
        "||   .=='    _-'          `-__\\._-'         `-_./__-'         `' |. /|  |   ||"@,
        "||.=='    _-'                                                     `' |  /==.||"@,
        "=='    _-'                                                            \\/   `=="@,
        "\\   _-'                                                                `-_   /"@,
        " ''                                                                      ``'"@,
    ]
}

/// The lines of the logo.
pub fn banner_lines() -> (lines: Vec<&'static str>)
    ensures
        text_of(lines@) == doom_banner(),
        lines.len() == BANNER_LINES,
{
    let lines: Vec<&'static str> = vec![
        "=================     ===============     ===============   ========  ========",
        "\\ . . . . . . .\\   //. . . . . . .\\   //. . . . . . .\\  \\. . .\\// . . //",
        "||. . ._____. . .|| ||. . ._____. . .|| ||. . ._____. . .|| || . . .\\/ . . .||",
        "|| . .||   ||. . || || . .||   ||. . || || . .||   ||. . || ||. . . . . . . ||",
        "||. . ||   || . .|| ||. . ||   || . .|| ||. . ||   || . .|| || . | . . . . .||",
        "|| . .||   ||. _-|| ||-_ .||   ||. . || || . .||   ||. _-|| ||-_.|\\ . . . . ||",
        "||. . ||   ||-'  || ||  `-||   || . .|| ||. . ||   ||-'  || ||  `|\\_ . .|. .||",
        "|| . _||   ||    || ||    ||   ||_ . || || . _||   ||    || ||   |\\ `-_/| . ||",
        "||_-' ||  .|/    || ||    \\|.  || `-_|| ||_-' ||  .|/    || ||   | \\  / |-_.||",
        "||    ||_-'      || ||      `-_||    || ||    ||_-'      || ||   | \\  / |  `||",
        "||    `'         || ||         `'    || ||    `'         || ||   | \\  / |   ||",
        "||            .===' `===.         .==='.`===.         .===' /==. |  \\/  |   ||",
        "||         .=='   \\_|-_ `===. .==='   _|_   `===. .===' _-|/   `==  \\/  |   ||",
        "||      .=='    _-'    `-_  `='    _-'   `-_    `='  _-'   `-_  /|  \\/  |   ||",
        "||   .=='    _-'          `-__\\._-'         `-_./__-'         `' |. /|  |   ||",
        "||.=='    _-'                                                     `' |  /==.||",
        "=='    _-'                                                            \\/   `==",
        "\\   _-'                                                                `-_   /",
        " ''                                                                      ``'",
    ];
    assert(text_of(lines@) =~= doom_banner());
    lines
}

} // verus!
