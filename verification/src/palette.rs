//! The palette from which tags take their colours: a fixed table of named colour pairs.
use vstd::prelude::*;
use crate::error::StoreError;
use crate::model::tag::{TagColorInfo, TagColorInfoView};

verus! {

/// One colour of the palette: its key, the foreground colour and the background colour.
pub struct PaletteEntry {
    pub key: &'static str,
    pub color: &'static str,
    pub bg_color: &'static str,
}

/// The value of a [`PaletteEntry`].
pub ghost struct PaletteEntryView {
    pub key: Seq<char>,
    pub color: Seq<char>,
    pub bg_color: Seq<char>,
}

impl View for PaletteEntry {
    type V = PaletteEntryView;

    open spec fn view(&self) -> PaletteEntryView {
        PaletteEntryView { key: self.key@, color: self.color@, bg_color: self.bg_color@ }
    }
}

/// An entry of the palette.
pub open spec fn entry(key: &'static str, color: &'static str, bg_color: &'static str) -> PaletteEntryView {
    PaletteEntryView { key: key@, color: color@, bg_color: bg_color@ }
}

/// The palette. It is closed: a tag cannot have a colour that is not in it.
pub open spec fn palette() -> Seq<PaletteEntryView> {
    seq![
        entry("red", "#ef4444", "#fef2f2"),
        entry("orange", "#f97316", "#fff7ed"),
        entry("amber", "#f59e0b", "#fffbeb"),
        entry("yellow", "#eab308", "#fefce8"),
        entry("lime", "#84cc16", "#f7fee7"),
        entry("green", "#22c55e", "#f0fdf4"),
        entry("emerald", "#10b981", "#ecfdf5"),
        entry("teal", "#14b8a6", "#f0fdfa"),
        entry("cyan", "#06b6d4", "#ecfeff"),
        entry("sky", "#0ea5e9", "#f0f9ff"),
        entry("blue", "#3b82f6", "#eff6ff"),
        entry("indigo", "#6366f1", "#eef2ff"),
        entry("violet", "#8b5cf6", "#f5f3ff"),
        entry("purple", "#a855f7", "#faf5ff"),
        entry("fuchsia", "#d946ef", "#fdf4ff"),
        entry("pink", "#ec4899", "#fdf2f8"),
        entry("rose", "#f43f5e", "#fff1f2"),
        entry("gray", "#6b7280", "#f9fafb"),
    ]
}

/// The values of a list of entries.
pub open spec fn entries_view(table: Seq<PaletteEntry>) -> Seq<PaletteEntryView> {
    Seq::new(table.len(), |i: int| table[i]@)
}

/// Some entry of `table` has the key `key`.
pub open spec fn has_color(table: Seq<PaletteEntryView>, key: Seq<char>) -> bool {
    exists|i: int| 0 <= i < table.len() && (#[trigger] table[i]).key == key
}

/// The position of the first entry of `table` that has the key `key`.
pub open spec fn first_color(table: Seq<PaletteEntryView>, key: Seq<char>) -> int {
    choose|i: int|
        0 <= i < table.len() && (#[trigger] table[i]).key == key && forall|j: int|
            0 <= j < i ==> (#[trigger] table[j]).key != key
}

/// The colours that the palette has under the key `key`, if it has the key.
pub open spec fn color_info(key: Seq<char>) -> Option<TagColorInfoView> {
    if has_color(palette(), key) {
        let found = palette()[first_color(palette(), key)];
        Some(TagColorInfoView { color: found.color, bg_color: found.bg_color })
    } else {
        None
    }
}

/// The palette as a table.
pub fn palette_table() -> (table: Vec<PaletteEntry>)
    ensures
        entries_view(table@) == palette(),
{
    let mut table: Vec<PaletteEntry> = Vec::new();
    table.push(PaletteEntry { key: "red", color: "#ef4444", bg_color: "#fef2f2" });
    table.push(PaletteEntry { key: "orange", color: "#f97316", bg_color: "#fff7ed" });
    table.push(PaletteEntry { key: "amber", color: "#f59e0b", bg_color: "#fffbeb" });
    table.push(PaletteEntry { key: "yellow", color: "#eab308", bg_color: "#fefce8" });
    table.push(PaletteEntry { key: "lime", color: "#84cc16", bg_color: "#f7fee7" });
    table.push(PaletteEntry { key: "green", color: "#22c55e", bg_color: "#f0fdf4" });
    table.push(PaletteEntry { key: "emerald", color: "#10b981", bg_color: "#ecfdf5" });
    table.push(PaletteEntry { key: "teal", color: "#14b8a6", bg_color: "#f0fdfa" });
    table.push(PaletteEntry { key: "cyan", color: "#06b6d4", bg_color: "#ecfeff" });
    table.push(PaletteEntry { key: "sky", color: "#0ea5e9", bg_color: "#f0f9ff" });
    table.push(PaletteEntry { key: "blue", color: "#3b82f6", bg_color: "#eff6ff" });
    table.push(PaletteEntry { key: "indigo", color: "#6366f1", bg_color: "#eef2ff" });
    table.push(PaletteEntry { key: "violet", color: "#8b5cf6", bg_color: "#f5f3ff" });
    table.push(PaletteEntry { key: "purple", color: "#a855f7", bg_color: "#faf5ff" });
    table.push(PaletteEntry { key: "fuchsia", color: "#d946ef", bg_color: "#fdf4ff" });
    table.push(PaletteEntry { key: "pink", color: "#ec4899", bg_color: "#fdf2f8" });
    table.push(PaletteEntry { key: "rose", color: "#f43f5e", bg_color: "#fff1f2" });
    table.push(PaletteEntry { key: "gray", color: "#6b7280", bg_color: "#f9fafb" });
    table
}

/// The colours of the palette key `color_id`. A key that the palette does not have is
/// an error.
pub fn tag_color_info(color_id: &str) -> (r: Result<TagColorInfo, StoreError>)
    ensures
        match r {
            Ok(info) => color_info(color_id@) == Some(info@),
            Err(e) => e == StoreError::UnknownColor && color_info(color_id@) is None,
        },
{
    let key = color_id.to_owned();
    let table = palette_table();
    let ghost entries = entries_view(table@);
    let mut i: usize = 0;
    while i < table.len()
        invariant
            i <= table.len(),
            key@ == color_id@,
            entries == entries_view(table@),
            entries == palette(),
            forall|j: int| 0 <= j < i ==> (#[trigger] entries[j]).key != color_id@,
        decreases table.len() - i,
    {
        if table[i].key.to_owned() == key {
            return Ok(
                TagColorInfo { color: table[i].color.to_owned(), bg_color: table[i].bg_color.to_owned() },
            );
        }
        i += 1;
    }
    Err(StoreError::UnknownColor)
}

} // verus!
