//! The command registry: the fixed, immutable table binding each custom
//! command id to the name of the application-level signal it raises.

use vstd::prelude::*;
use crate::accel::str_eq;

verus! {

/// The fixed id → signal-name table, one row per custom command.
pub open spec fn registry_table() -> Seq<(Seq<char>, Seq<char>)> {
    seq![
        ("export_png"@, "menu-export-png"@),
        ("export_config"@, "menu-export-config"@),
        ("import_config"@, "menu-import-config"@),
        ("open_recent"@, "menu-open-recent"@),
        ("manual_rect"@, "menu-manual-rect"@),
        ("reset_rect"@, "menu-reset-rect"@),
        ("clear_markers"@, "menu-clear-markers"@),
        ("preferences"@, "menu-preferences"@),
        ("show_help"@, "menu-show-help"@),
    ]
}

/// The first binding of `id` in `entries`, if any.
pub open spec fn lookup_in(entries: Seq<(Seq<char>, Seq<char>)>, id: Seq<char>) -> Option<
    Seq<char>,
>
    decreases entries.len(),
{
    if entries.len() == 0 {
        None
    } else if entries[0].0 == id {
        Some(entries[0].1)
    } else {
        lookup_in(entries.drop_first(), id)
    }
}

pub proof fn lemma_lookup_skip(entries: Seq<(Seq<char>, Seq<char>)>, id: Seq<char>, i: int)
    requires
        0 <= i <= entries.len(),
        forall|j: int| 0 <= j < i ==> (#[trigger] entries[j]).0 != id,
    ensures
        lookup_in(entries, id) == lookup_in(entries.subrange(i, entries.len() as int), id),
    decreases i,
{
    if i == 0 {
        assert(entries.subrange(0, entries.len() as int) =~= entries);
    } else {
        let t = entries.drop_first();
        assert(forall|j: int| 0 <= j < i - 1 ==> (#[trigger] t[j]).0 != id);
        lemma_lookup_skip(t, id, i - 1);
        assert(t.subrange(i - 1, t.len() as int) =~= entries.subrange(i, entries.len() as int));
    }
}

/// The registry held at run time: the table rows in order. Its view is the
/// sequence of (id, signal-name) pairs.
pub struct CommandTable {
    entries: Vec<(String, String)>,
}

impl View for CommandTable {
    type V = Seq<(Seq<char>, Seq<char>)>;

    closed spec fn view(&self) -> Seq<(Seq<char>, Seq<char>)> {
        self.entries@.map_values(|p: (String, String)| (p.0@, p.1@))
    }
}

impl CommandTable {
    /// Builds the fixed registry: exactly the rows of
    /// `registry_table`, in order.
    pub fn new() -> (t: CommandTable)
        ensures
            t@ == registry_table(),
    {
        let mut entries: Vec<(String, String)> = Vec::new();
        entries.push(("export_png".to_owned(), "menu-export-png".to_owned()));
        entries.push(("export_config".to_owned(), "menu-export-config".to_owned()));
        entries.push(("import_config".to_owned(), "menu-import-config".to_owned()));
        entries.push(("open_recent".to_owned(), "menu-open-recent".to_owned()));
        entries.push(("manual_rect".to_owned(), "menu-manual-rect".to_owned()));
        entries.push(("reset_rect".to_owned(), "menu-reset-rect".to_owned()));
        entries.push(("clear_markers".to_owned(), "menu-clear-markers".to_owned()));
        entries.push(("preferences".to_owned(), "menu-preferences".to_owned()));
        entries.push(("show_help".to_owned(), "menu-show-help".to_owned()));
        let t = CommandTable { entries };
        proof {
            assert(t@ =~= registry_table());
        }
        t
    }

    /// Pure lookup: the signal name bound to `id`, or nothing for an
    /// unregistered id. No side effects.
    pub fn lookup(&self, id: &str) -> (r: Option<String>)
        ensures
            match r {
                Some(sig) => lookup_in(self@, id@) == Some(sig@),
                None => lookup_in(self@, id@) is None,
            },
    {
        let n = self.entries.len();
        let mut i: usize = 0;
        while i < n
            invariant
                n == self.entries@.len(),
                n == self@.len(),
                0 <= i <= n,
                forall|j: int| 0 <= j < i ==> (#[trigger] self@[j]).0 != id@,
            decreases n - i,
        {
            let hit = str_eq(self.entries[i].0.as_str(), id);
            proof {
                assert(self@[i as int] == (self.entries@[i as int].0@, self.entries@[i as int].1@));
            }
            if hit {
                proof {
                    lemma_lookup_skip(self@, id@, i as int);
                    assert(self@.subrange(i as int, n as int)[0] == self@[i as int]);
                }
                return Some(self.entries[i].1.clone());
            }
            i = i + 1;
        }
        proof {
            lemma_lookup_skip(self@, id@, n as int);
            assert(self@.subrange(n as int, n as int) =~= Seq::<(Seq<char>, Seq<char>)>::empty());
        }
        None
    }

    /// The number of rows.
    pub fn len(&self) -> (n: usize)
        ensures
            n == self@.len(),
    {
        self.entries.len()
    }
}

/// Law: lookup resolves each registered id to exactly the signal name of its
/// row in the fixed table.
pub proof fn lemma_registry_lookup_values()
    ensures
        lookup_in(registry_table(), "export_png"@) == Some("menu-export-png"@),
        lookup_in(registry_table(), "export_config"@) == Some("menu-export-config"@),
        lookup_in(registry_table(), "import_config"@) == Some("menu-import-config"@),
        lookup_in(registry_table(), "open_recent"@) == Some("menu-open-recent"@),
        lookup_in(registry_table(), "manual_rect"@) == Some("menu-manual-rect"@),
        lookup_in(registry_table(), "reset_rect"@) == Some("menu-reset-rect"@),
        lookup_in(registry_table(), "clear_markers"@) == Some("menu-clear-markers"@),
        lookup_in(registry_table(), "preferences"@) == Some("menu-preferences"@),
        lookup_in(registry_table(), "show_help"@) == Some("menu-show-help"@),
{
    reveal_strlit("export_png");
    reveal_strlit("export_config");
    reveal_strlit("import_config");
    reveal_strlit("open_recent");
    reveal_strlit("manual_rect");
    reveal_strlit("reset_rect");
    reveal_strlit("clear_markers");
    reveal_strlit("preferences");
    reveal_strlit("show_help");
    assert("export_png"@.len() == 10);
    assert("export_config"@.len() == 13);
    assert("import_config"@.len() == 13);
    assert("open_recent"@.len() == 11);
    assert("manual_rect"@.len() == 11);
    assert("reset_rect"@.len() == 10);
    assert("clear_markers"@.len() == 13);
    assert("preferences"@.len() == 11);
    assert("show_help"@.len() == 9);
    assert("export_png"@[0] == 'e' && "reset_rect"@[0] == 'r');
    assert("export_config"@[0] == 'e' && "import_config"@[0] == 'i' && "clear_markers"@[0] == 'c');
    assert("open_recent"@[0] == 'o' && "manual_rect"@[0] == 'm' && "preferences"@[0] == 'p');
    reveal_with_fuel(lookup_in, 10);
    assert(lookup_in(registry_table(), "export_png"@) == Some("menu-export-png"@));
    assert(lookup_in(registry_table(), "export_config"@) == Some("menu-export-config"@));
    assert(lookup_in(registry_table(), "import_config"@) == Some("menu-import-config"@));
    assert(lookup_in(registry_table(), "open_recent"@) == Some("menu-open-recent"@));
    assert(lookup_in(registry_table(), "manual_rect"@) == Some("menu-manual-rect"@));
    assert(lookup_in(registry_table(), "reset_rect"@) == Some("menu-reset-rect"@));
    assert(lookup_in(registry_table(), "clear_markers"@) == Some("menu-clear-markers"@));
    assert(lookup_in(registry_table(), "preferences"@) == Some("menu-preferences"@));
    assert(lookup_in(registry_table(), "show_help"@) == Some("menu-show-help"@));
}

/// Law: the id → signal mapping is one-to-one — distinct rows of the fixed
/// table carry distinct ids and distinct signal names.
pub proof fn lemma_registry_injective()
    ensures
        forall|i: int, j: int|
            0 <= i < j < registry_table().len() ==> (#[trigger] registry_table()[i]).0 != (
            #[trigger] registry_table()[j]).0,
        forall|i: int, j: int|
            0 <= i < j < registry_table().len() ==> (#[trigger] registry_table()[i]).1 != (
            #[trigger] registry_table()[j]).1,
{
    reveal_strlit("export_png");
    reveal_strlit("export_config");
    reveal_strlit("import_config");
    reveal_strlit("open_recent");
    reveal_strlit("manual_rect");
    reveal_strlit("reset_rect");
    reveal_strlit("clear_markers");
    reveal_strlit("preferences");
    reveal_strlit("show_help");
    reveal_strlit("menu-export-png");
    reveal_strlit("menu-export-config");
    reveal_strlit("menu-import-config");
    reveal_strlit("menu-open-recent");
    reveal_strlit("menu-manual-rect");
    reveal_strlit("menu-reset-rect");
    reveal_strlit("menu-clear-markers");
    reveal_strlit("menu-preferences");
    reveal_strlit("menu-show-help");
    let t = registry_table();
    assert(t.len() == 9);
    assert forall|i: int, j: int| 0 <= i < j < t.len() implies (#[trigger] t[i]).0 != (
    #[trigger] t[j]).0 && t[i].1 != t[j].1 by {
        assert("export_png"@.len() == 10);
        assert("export_config"@.len() == 13);
        assert("import_config"@.len() == 13);
        assert("open_recent"@.len() == 11);
        assert("manual_rect"@.len() == 11);
        assert("reset_rect"@.len() == 10);
        assert("clear_markers"@.len() == 13);
        assert("preferences"@.len() == 11);
        assert("show_help"@.len() == 9);
        assert("export_png"@[0] == 'e' && "reset_rect"@[0] == 'r');
        assert("export_config"@[0] == 'e' && "import_config"@[0] == 'i' && "clear_markers"@[0]
            == 'c');
        assert("open_recent"@[0] == 'o' && "manual_rect"@[0] == 'm' && "preferences"@[0] == 'p');
        assert("menu-export-png"@.len() == 15);
        assert("menu-export-config"@.len() == 18);
        assert("menu-import-config"@.len() == 18);
        assert("menu-open-recent"@.len() == 16);
        assert("menu-manual-rect"@.len() == 16);
        assert("menu-reset-rect"@.len() == 15);
        assert("menu-clear-markers"@.len() == 18);
        assert("menu-preferences"@.len() == 16);
        assert("menu-show-help"@.len() == 14);
        assert("menu-export-png"@[5] == 'e' && "menu-reset-rect"@[5] == 'r');
        assert("menu-export-config"@[5] == 'e' && "menu-import-config"@[5] == 'i'
            && "menu-clear-markers"@[5] == 'c');
        assert("menu-open-recent"@[5] == 'o' && "menu-manual-rect"@[5] == 'm'
            && "menu-preferences"@[5] == 'p');
    }
}

} // verus!
