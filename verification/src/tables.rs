//! The two fixed tables of the report: compass abbreviations to arrows, and
//! the US EPA index to its label. A lookup that finds no entry answers with a
//! fallback and never fails.

use std::collections::HashMap;
use vstd::hash_map::StringHashMap;
use vstd::prelude::*;

verus! {

/// The arrow of a compass abbreviation; `None` for any other text.
pub open spec fn wind_glyph(dir: Seq<char>) -> Option<Seq<char>> {
    if dir == "N"@ {
        Some("⬆"@)
    } else if dir == "NNE"@ {
        Some("↗"@)
    } else if dir == "NE"@ {
        Some("↗"@)
    } else if dir == "ENE"@ {
        Some("➡"@)
    } else if dir == "E"@ {
        Some("➡"@)
    } else if dir == "ESE"@ {
        Some("↘"@)
    } else if dir == "SE"@ {
        Some("↘"@)
    } else if dir == "SSE"@ {
        Some("⬇"@)
    } else if dir == "S"@ {
        Some("⬇"@)
    } else if dir == "SSW"@ {
        Some("↙"@)
    } else if dir == "SW"@ {
        Some("↙"@)
    } else if dir == "WSW"@ {
        Some("⬅"@)
    } else if dir == "W"@ {
        Some("⬅"@)
    } else if dir == "WNW"@ {
        Some("↖"@)
    } else if dir == "NW"@ {
        Some("↖"@)
    } else if dir == "NNW"@ {
        Some("⬆"@)
    } else {
        None
    }
}

/// What the report shows for a wind direction: its arrow, or the question
/// mark that stands for a direction the table does not know.
pub open spec fn wind_glyph_or_fallback(dir: Seq<char>) -> Seq<char> {
    match wind_glyph(dir) {
        Some(glyph) => glyph,
        None => "❓"@,
    }
}

/// The label of a US EPA index; `None` outside 1 to 6.
pub open spec fn epa_label(key: u8) -> Option<Seq<char>> {
    if key == 1 {
        Some("Good"@)
    } else if key == 2 {
        Some("Moderate"@)
    } else if key == 3 {
        Some("Unhealthy for sensitive group"@)
    } else if key == 4 {
        Some("Unhealthy"@)
    } else if key == 5 {
        Some("Very Unhealthy"@)
    } else if key == 6 {
        Some("Hazardous"@)
    } else {
        None
    }
}

/// What the report shows for an index: its label from 1 to 6, and "Unknown"
/// for every other integer.
pub open spec fn epa_label_or_fallback(index: i32) -> Seq<char> {
    if 1 <= index <= 6 {
        epa_label(index as u8)->0
    } else {
        "Unknown"@
    }
}

/// What the sixteen compass abbreviations are made of, from which it
/// follows that no two of them are the same text.
proof fn lemma_directions_spelled()
    ensures
        "N"@.len() == 1 && "N"@[0] == 'N',
        "NNE"@.len() == 3 && "NNE"@[0] == 'N' && "NNE"@[1] == 'N' && "NNE"@[2] == 'E',
        "NE"@.len() == 2 && "NE"@[0] == 'N' && "NE"@[1] == 'E',
        "ENE"@.len() == 3 && "ENE"@[0] == 'E' && "ENE"@[1] == 'N' && "ENE"@[2] == 'E',
        "E"@.len() == 1 && "E"@[0] == 'E',
        "ESE"@.len() == 3 && "ESE"@[0] == 'E' && "ESE"@[1] == 'S' && "ESE"@[2] == 'E',
        "SE"@.len() == 2 && "SE"@[0] == 'S' && "SE"@[1] == 'E',
        "SSE"@.len() == 3 && "SSE"@[0] == 'S' && "SSE"@[1] == 'S' && "SSE"@[2] == 'E',
        "S"@.len() == 1 && "S"@[0] == 'S',
        "SSW"@.len() == 3 && "SSW"@[0] == 'S' && "SSW"@[1] == 'S' && "SSW"@[2] == 'W',
        "SW"@.len() == 2 && "SW"@[0] == 'S' && "SW"@[1] == 'W',
        "WSW"@.len() == 3 && "WSW"@[0] == 'W' && "WSW"@[1] == 'S' && "WSW"@[2] == 'W',
        "W"@.len() == 1 && "W"@[0] == 'W',
        "WNW"@.len() == 3 && "WNW"@[0] == 'W' && "WNW"@[1] == 'N' && "WNW"@[2] == 'W',
        "NW"@.len() == 2 && "NW"@[0] == 'N' && "NW"@[1] == 'W',
        "NNW"@.len() == 3 && "NNW"@[0] == 'N' && "NNW"@[1] == 'N' && "NNW"@[2] == 'W',
{
    reveal_strlit("N");
    reveal_strlit("NNE");
    reveal_strlit("NE");
    reveal_strlit("ENE");
    reveal_strlit("E");
    reveal_strlit("ESE");
    reveal_strlit("SE");
    reveal_strlit("SSE");
    reveal_strlit("S");
    reveal_strlit("SSW");
    reveal_strlit("SW");
    reveal_strlit("WSW");
    reveal_strlit("W");
    reveal_strlit("WNW");
    reveal_strlit("NW");
    reveal_strlit("NNW");
}

/// The table of wind arrows: sixteen compass abbreviations, each with the
/// arrow that points the way the wind blows from.
pub fn get_wind_arrows() -> (table: StringHashMap<&'static str>)
    ensures
        forall|dir: Seq<char>| table@.contains_key(dir) <==> wind_glyph(dir) is Some,
        forall|dir: Seq<char>| #[trigger]
            table@.contains_key(dir) ==> table@[dir]@ == wind_glyph(dir)->0,
{
    let mut table = StringHashMap::<&'static str>::new();
    table.insert("N".to_owned(), "⬆");
    table.insert("NNE".to_owned(), "↗");
    table.insert("NE".to_owned(), "↗");
    table.insert("ENE".to_owned(), "➡");
    table.insert("E".to_owned(), "➡");
    table.insert("ESE".to_owned(), "↘");
    table.insert("SE".to_owned(), "↘");
    table.insert("SSE".to_owned(), "⬇");
    table.insert("S".to_owned(), "⬇");
    table.insert("SSW".to_owned(), "↙");
    table.insert("SW".to_owned(), "↙");
    table.insert("WSW".to_owned(), "⬅");
    table.insert("W".to_owned(), "⬅");
    table.insert("WNW".to_owned(), "↖");
    table.insert("NW".to_owned(), "↖");
    table.insert("NNW".to_owned(), "⬆");
    proof {
        lemma_directions_spelled();
    }
    table
}

/// The table of US EPA labels: the indices 1 to 6, from "Good" to
/// "Hazardous".
pub fn get_us_epa_index() -> (table: HashMap<u8, &'static str>)
    ensures
        forall|key: u8| table@.contains_key(key) <==> epa_label(key) is Some,
        forall|key: u8| #[trigger]
            table@.contains_key(key) ==> table@[key]@ == epa_label(key)->0,
{
    let mut table = HashMap::<u8, &'static str>::new();
    table.insert(1, "Good");
    table.insert(2, "Moderate");
    table.insert(3, "Unhealthy for sensitive group");
    table.insert(4, "Unhealthy");
    table.insert(5, "Very Unhealthy");
    table.insert(6, "Hazardous");
    table
}

/// The arrow shown for a wind direction: the table's entry, or the fallback
/// for a direction that has none.
pub fn wind_arrow(dir: &str) -> (glyph: &'static str)
    ensures
        glyph@ == wind_glyph_or_fallback(dir@),
{
    let table = get_wind_arrows();
    match table.get(dir) {
        Some(glyph) => *glyph,
        None => "❓",
    }
}

/// The label shown for a US EPA index: the table's entry for an index from
/// 1 to 6, and "Unknown" for every other integer, however large or small.
pub fn aqi_label(index: i32) -> (label: &'static str)
    ensures
        label@ == epa_label_or_fallback(index),
{
    if index < 1 || index > 6 {
        return "Unknown";
    }
    let table = get_us_epa_index();
    let key: u8 = index as u8;
    match table.get(&key) {
        Some(label) => *label,
        None => "Unknown",
    }
}

/// A wind direction outside the sixteen of the table is shown as the
/// fallback glyph.
pub proof fn lemma_unknown_direction_falls_back(dir: Seq<char>)
    requires
        wind_glyph(dir) is None,
    ensures
        wind_glyph_or_fallback(dir) == "❓"@,
{
}

/// Every index outside 1 to 6 is labelled "Unknown".
pub proof fn lemma_unknown_index_falls_back(index: i32)
    requires
        index < 1 || index > 6,
    ensures
        epa_label_or_fallback(index) == "Unknown"@,
{
}

} // verus!
