//! Snippet directory client: maps a shortcut string to a snippet body. The
//! persistent store behind it is an external collaborator; the core only
//! queries by shortcut and never sees an inactive snippet.

use vstd::prelude::*;

use vstd::string::StringExecFns;

verus! {

/// One snippet as the directory hands it to the core: its trigger shortcut,
/// its template body, and whether it may expand.
pub struct SnippetEntry {
    pub shortcut: String,
    pub body: String,
    pub is_active: bool,
}

/// What an entry means: (shortcut, body, active).
pub open spec fn entry_view(e: SnippetEntry) -> (Seq<char>, Seq<char>, bool) {
    (e.shortcut@, e.body@, e.is_active)
}

pub open spec fn entries_view(entries: Seq<SnippetEntry>) -> Seq<(Seq<char>, Seq<char>, bool)> {
    entries.map_values(|e: SnippetEntry| entry_view(e))
}

/// The body of the first active entry whose shortcut equals `token`; `None`
/// for an unknown shortcut or one whose entries are all inactive.
pub open spec fn lookup_spec(
    entries: Seq<(Seq<char>, Seq<char>, bool)>,
    token: Seq<char>,
) -> Option<Seq<char>>
    decreases entries.len(),
{
    if entries.len() == 0 {
        None
    } else if entries[0].2 && entries[0].0 == token {
        Some(entries[0].1)
    } else {
        lookup_spec(entries.drop_first(), token)
    }
}

/// In-memory view of the snippet directory the engine consults.
pub struct SnippetDirectory {
    entries: Vec<SnippetEntry>,
}

impl SnippetDirectory {
    pub closed spec fn view(&self) -> Seq<(Seq<char>, Seq<char>, bool)> {
        entries_view(self.entries@)
    }

    pub fn new() -> (r: SnippetDirectory)
        ensures
            r@ == Seq::<(Seq<char>, Seq<char>, bool)>::empty(),
    {
        let r = SnippetDirectory { entries: Vec::new() };
        proof {
            assert(r@ =~= Seq::<(Seq<char>, Seq<char>, bool)>::empty());
        }
        r
    }

    pub fn add(&mut self, entry: SnippetEntry)
        ensures
            final(self)@ == old(self)@.push(entry_view(entry)),
    {
        self.entries.push(entry);
        proof {
            assert(self@ =~= old(self)@.push(entry_view(entry)));
        }
    }

    /// Pure read: the body for `token`, with inactive snippets filtered out.
    pub fn lookup(&self, token: &str) -> (r: Option<String>)
        ensures
            match r {
                Some(body) => lookup_spec(self@, token@) == Some(body@),
                None => lookup_spec(self@, token@) is None,
            },
    {
        let token_owned = String::from_str(token);
        let mut idx: usize = 0;
        proof {
            assert(self@.skip(0) =~= self@);
        }
        while idx < self.entries.len()
            invariant
                idx <= self.entries@.len(),
                token_owned@ == token@,
                lookup_spec(self@, token@) == lookup_spec(self@.skip(idx as int), token@),
            decreases self.entries@.len() - idx,
        {
            proof {
                assert(self@.skip(idx as int)[0] == self@[idx as int]);
            }
            if self.entries[idx].is_active && self.entries[idx].shortcut == token_owned {
                return Some(self.entries[idx].body.clone());
            }
            idx += 1;
            proof {
                assert(self@.skip(idx - 1).drop_first() =~= self@.skip(idx as int));
            }
        }
        proof {
            assert(self@.skip(idx as int).len() == 0);
        }
        None
    }
}

/// The built-in sample table: the bodies served for the stock shortcuts, and
/// nothing for any other string.
pub fn get_snippet_by_shortcut(shortcut: &str) -> (r: Option<String>)
    ensures
        shortcut@ == "/green"@ ==> (r matches Some(b) && b@ == "\u{1f7e2} Green Color: #22c55e"@),
        shortcut@ == "/json"@ ==> (r matches Some(b) && b@ == "{\"key\": \"value\"}"@),
        shortcut@ == "/send"@ ==> (r matches Some(b) && b@ == "Best regards,\nJohn Doe"@),
        shortcut@ == "/drop"@ ==> (r matches Some(b) && b@
            == "Let me know if you need anything else!"@),
        r is Some ==> shortcut@ == "/green"@ || shortcut@ == "/json"@ || shortcut@ == "/send"@
            || shortcut@ == "/drop"@,
{
    proof {
        reveal_strlit("/green");
        reveal_strlit("/json");
        reveal_strlit("/send");
        reveal_strlit("/drop");
        assert("/green"@.len() == 6 && "/json"@.len() == 5);
        assert("/json"@[1] == 'j' && "/send"@[1] == 's' && "/drop"@[1] == 'd');
        assert("/green"@ != "/json"@ && "/green"@ != "/send"@ && "/green"@ != "/drop"@);
        assert("/json"@ != "/send"@ && "/json"@ != "/drop"@ && "/send"@ != "/drop"@);
    }
    let s = String::from_str(shortcut);
    if s == String::from_str("/green") {
        Some(String::from_str("\u{1f7e2} Green Color: #22c55e"))
    } else if s == String::from_str("/json") {
        Some(String::from_str("{\"key\": \"value\"}"))
    } else if s == String::from_str("/send") {
        Some(String::from_str("Best regards,\nJohn Doe"))
    } else if s == String::from_str("/drop") {
        Some(String::from_str("Let me know if you need anything else!"))
    } else {
        None
    }
}

/// The sample table as a directory, every entry active.
pub fn default_directory() -> (r: SnippetDirectory)
    ensures
        r@.len() == 4,
        lookup_spec(r@, "/green"@) == Some("\u{1f7e2} Green Color: #22c55e"@),
    {
    let mut d = SnippetDirectory::new();
    d.add(
        SnippetEntry {
            shortcut: String::from_str("/green"),
            body: String::from_str("\u{1f7e2} Green Color: #22c55e"),
            is_active: true,
        },
    );
    d.add(
        SnippetEntry {
            shortcut: String::from_str("/json"),
            body: String::from_str("{\"key\": \"value\"}"),
            is_active: true,
        },
    );
    d.add(
        SnippetEntry {
            shortcut: String::from_str("/send"),
            body: String::from_str("Best regards,\nJohn Doe"),
            is_active: true,
        },
    );
    d.add(
        SnippetEntry {
            shortcut: String::from_str("/drop"),
            body: String::from_str("Let me know if you need anything else!"),
            is_active: true,
        },
    );
    d
}

} // verus!
