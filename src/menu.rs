use vstd::prelude::*;
use vstd::string::*;

use crate::activation_index;
use crate::text::{char_to_string, decimal, usize_to_string};

verus! {

/// One shortcut of the menu: the key that triggers it, the text shown, and
/// the shell command it launches.
pub struct MenuEntry {
    pub key: char,
    pub label: String,
    pub command: String,
}

/// The menu shown by the selector: a title, an optional theme path and the
/// entries in display order.
pub struct Menu {
    pub title: String,
    pub entries: Vec<MenuEntry>,
    pub theme: Option<String>,
}

/// The activation binding handed to the selector for one entry.
pub struct KeyBinding {
    pub index: usize,
    pub key: char,
}

/// The displayed line of an entry: its key in brackets, a space, its label.
pub open spec fn entry_line(key: char, label: Seq<char>) -> Seq<char> {
    seq!['['] + seq![key] + seq![']', ' '] + label
}

/// The lines of all entries joined with newlines (no trailing newline).
pub open spec fn joined(lines: Seq<Seq<char>>) -> Seq<char>
    decreases lines.len(),
{
    if lines.len() == 0 {
        Seq::empty()
    } else if lines.len() == 1 {
        lines[0]
    } else {
        joined(lines.drop_last()) + seq!['\n'] + lines.last()
    }
}

/// Position `i` holds the first entry with key `k`.
pub open spec fn is_first_with_key(entries: Seq<MenuEntry>, k: char, i: int) -> bool {
    &&& 0 <= i < entries.len()
    &&& entries[i].key == k
    &&& forall|j: int| 0 <= j < i ==> entries[j].key != k
}

/// No entry after position `i` shares its key.
pub open spec fn is_last_with_key(entries: Seq<MenuEntry>, i: int) -> bool {
    &&& 0 <= i < entries.len()
    &&& forall|j: int| i < j < entries.len() ==> entries[j].key != entries[i].key
}

/// The command of the first entry with key `k`, if there is one.
pub open spec fn command_for_key(entries: Seq<MenuEntry>, k: char) -> Option<Seq<char>> {
    if exists|i: int| is_first_with_key(entries, k, i) {
        let i = choose|i: int| is_first_with_key(entries, k, i);
        Some(entries[i].command@)
    } else {
        None
    }
}

/// The command selected by a selector exit status. Statuses from ten up name
/// activation index `code - 9`, bound to the entry at position `code - 10`;
/// a key bound twice keeps only its last binding.
pub open spec fn selected_command(entries: Seq<MenuEntry>, code: int) -> Option<Seq<char>> {
    if code >= 10 && is_last_with_key(entries, code - 10) {
        command_for_key(entries, entries[code - 10].key)
    } else {
        None
    }
}

/// The selector's flag naming activation binding `index`.
pub open spec fn binding_flag(index: nat) -> Seq<char> {
    "-kb-custom-"@ + decimal(index)
}

/// The fixed leading arguments of the selector call.
pub open spec fn base_args(title: Seq<char>) -> Seq<Seq<char>> {
    seq![
        "-dmenu"@,
        "-i"@,
        "-p"@,
        title,
        "-no-fork"@,
        "-markup-rows"@,
        "-no-custom"@,
        "-theme-str"@,
        "configuration { matching: \"regex\"; }"@,
    ]
}

/// The theme arguments of the selector call.
pub open spec fn theme_args(theme: Option<Seq<char>>) -> Seq<Seq<char>> {
    match theme {
        Some(t) => seq!["-theme"@, t],
        None => Seq::empty(),
    }
}

/// The binding arguments of the first `n` entries: a flag and a key each.
pub open spec fn binding_args(entries: Seq<MenuEntry>, n: int) -> Seq<Seq<char>>
    decreases n,
{
    if n <= 0 {
        Seq::empty()
    } else {
        binding_args(entries, n - 1) + seq![binding_flag(n as nat), seq![entries[n - 1].key]]
    }
}

/// The entries as their key, label and command texts.
pub open spec fn entries_view(entries: Seq<MenuEntry>) -> Seq<(char, Seq<char>, Seq<char>)> {
    entries.map_values(|e: MenuEntry| (e.key, e.label@, e.command@))
}

/// The activation index of the entry at position `p`.
pub open spec fn binding_index(p: int) -> int {
    p + 1
}

/// The entry position bound to activation index `i`.
pub open spec fn binding_position(i: int) -> int {
    i - 1
}

/// Activation indices and entry positions correspond one to one: every
/// position below `n` gets an index from 1 to `n`, every such index comes
/// from exactly one position, and the two maps undo each other.
pub proof fn lemma_binding_bijection(n: int)
    requires
        n >= 0,
    ensures
        forall|p: int| 0 <= p < n ==> 1 <= #[trigger] binding_index(p) <= n
            && binding_position(binding_index(p)) == p,
        forall|i: int| 1 <= i <= n ==> 0 <= #[trigger] binding_position(i) < n
            && binding_index(binding_position(i)) == i,
        forall|p: int, q: int| binding_index(p) == binding_index(q) ==> p == q,
{
}

/// Exit statuses below ten select nothing; a status `c` from ten up names
/// activation index `c - 9`, and selects exactly what the entry bound to that
/// index selects, provided its key is not bound again later.
pub proof fn lemma_exit_code_decoding(entries: Seq<MenuEntry>, code: int)
    ensures
        code < 10 ==> selected_command(entries, code) is None,
        code >= 10 ==> binding_position(code - 9) == code - 10,
        code >= 10 && is_last_with_key(entries, binding_position(code - 9)) ==>
            selected_command(entries, code)
                == command_for_key(entries, entries[binding_position(code - 9)].key),
        code >= 10 && !is_last_with_key(entries, binding_position(code - 9)) ==>
            selected_command(entries, code) is None,
{
}

/// With keys that are all distinct, a status `c` from ten up selects the
/// command of the entry at position `c - 10`, and nothing past the last entry.
pub proof fn lemma_exit_code_distinct_keys(entries: Seq<MenuEntry>, code: int)
    requires
        forall|i: int, j: int| 0 <= i < j < entries.len() ==> entries[i].key != entries[j].key,
    ensures
        10 <= code < 10 + entries.len() ==> selected_command(entries, code)
            == Some(entries[code - 10].command@),
        code >= 10 + entries.len() ==> selected_command(entries, code) is None,
{
    if 10 <= code < 10 + entries.len() {
        let p = code - 10;
        assert(is_first_with_key(entries, entries[p].key, p));
        let c = choose|c: int| is_first_with_key(entries, entries[p].key, c);
        assert(c == p) by {
            if c < p {
                assert(entries[c].key != entries[p].key);
            } else if c > p {
                assert(entries[p].key != entries[c].key);
            }
        }
    }
}

impl Menu {
    /// The entries as their key, label and command texts.
    pub open spec fn entries_model(&self) -> Seq<(char, Seq<char>, Seq<char>)> {
        entries_view(self.entries@)
    }

    /// The theme path as text, if there is one.
    pub open spec fn theme_model(&self) -> Option<Seq<char>> {
        match self.theme {
            Some(t) => Some(t@),
            None => None,
        }
    }

    /// The displayed lines of the entries, in order.
    pub open spec fn lines_spec(&self) -> Seq<Seq<char>> {
        self.entries@.map_values(|e: MenuEntry| entry_line(e.key, e.label@))
    }

    /// An empty menu with the given title and theme.
    pub fn new(title: &str, theme: Option<String>) -> (r: Menu)
        ensures
            r.title@ == title@,
            r.entries@.len() == 0,
            r.theme == theme,
    {
        Menu { title: String::from_str(title), entries: Vec::new(), theme }
    }

    /// Appends an entry; keys are not checked for uniqueness.
    pub fn add_entry(&mut self, key: char, label: &str, command: &str)
        ensures
            final(self).title == old(self).title,
            final(self).theme == old(self).theme,
            final(self).entries@.len() == old(self).entries@.len() + 1,
            forall|i: int| 0 <= i < old(self).entries@.len() ==>
                final(self).entries@[i] == old(self).entries@[i],
            final(self).entries@.last().key == key,
            final(self).entries@.last().label@ == label@,
            final(self).entries@.last().command@ == command@,
    {
        let entry = MenuEntry {
            key,
            label: String::from_str(label),
            command: String::from_str(command),
        };
        self.entries.push(entry);
    }

    /// One displayed line per entry, in entry order.
    pub fn render_lines(&self) -> (r: Vec<String>)
        ensures
            r@.len() == self.entries@.len(),
            forall|i: int| 0 <= i < r@.len() ==>
                r@[i]@ == entry_line(self.entries@[i].key, self.entries@[i].label@),
    {
        let mut lines: Vec<String> = Vec::new();
        let mut i: usize = 0;
        while i < self.entries.len()
            invariant
                i <= self.entries@.len(),
                lines@.len() == i,
                forall|j: int| 0 <= j < i ==>
                    lines@[j]@ == entry_line(self.entries@[j].key, self.entries@[j].label@),
            decreases self.entries@.len() - i,
        {
            let entry = &self.entries[i];
            let mut line = String::from_str("[");
            let key = char_to_string(entry.key);
            line.append(key.as_str());
            line.append("] ");
            line.append(entry.label.as_str());
            proof {
                reveal_strlit("[");
                reveal_strlit("] ");
                assert(line@ =~= entry_line(entry.key, entry.label@));
            }
            lines.push(line);
            i = i + 1;
        }
        lines
    }

    /// The selector's input: the displayed lines joined with newlines.
    pub fn generate_rofi_input(&self) -> (r: String)
        ensures
            r@ == joined(self.lines_spec()),
    {
        let lines = self.render_lines();
        let mut out = String::new();
        let mut i: usize = 0;
        while i < lines.len()
            invariant
                i <= lines@.len(),
                lines@.len() == self.entries@.len(),
                forall|j: int| 0 <= j < lines@.len() ==>
                    lines@[j]@ == entry_line(self.entries@[j].key, self.entries@[j].label@),
                out@ == joined(self.lines_spec().take(i as int)),
            decreases lines@.len() - i,
        {
            if i > 0 {
                out.append("\n");
            }
            out.append(lines[i].as_str());
            proof {
                reveal_strlit("\n");
                let prev = self.lines_spec().take(i as int);
                let next = self.lines_spec().take(i + 1);
                assert(next.drop_last() =~= prev);
                assert(next.last() == lines@[i as int]@);
                if i == 0 {
                    assert(prev.len() == 0);
                }
            }
            i = i + 1;
        }
        proof {
            assert(self.lines_spec().take(i as int) =~= self.lines_spec());
        }
        out
    }

    /// The command of the first entry whose key is `key`.
    pub fn get_command_for_key(&self, key: char) -> (r: Option<&str>)
        ensures
            match r {
                Some(c) => command_for_key(self.entries@, key) == Some(c@),
                None => command_for_key(self.entries@, key) is None,
            },
    {
        let mut i: usize = 0;
        while i < self.entries.len()
            invariant
                i <= self.entries@.len(),
                forall|j: int| 0 <= j < i ==> self.entries@[j].key != key,
            decreases self.entries@.len() - i,
        {
            if self.entries[i].key == key {
                proof {
                    assert(is_first_with_key(self.entries@, key, i as int));
                    let c = choose|c: int| is_first_with_key(self.entries@, key, c);
                    assert(c == i as int) by {
                        if c < i as int {
                        } else if c > i as int {
                            assert(self.entries@[i as int].key == key);
                        }
                    }
                }
                return Some(self.entries[i].command.as_str());
            }
            i = i + 1;
        }
        None
    }

    /// The activation binding of each entry: the entry at position `i` gets
    /// index `i + 1` and its own key.
    pub fn key_bindings(&self) -> (r: Vec<KeyBinding>)
        ensures
            r@.len() == self.entries@.len(),
            forall|i: int| 0 <= i < r@.len() ==>
                r@[i].index == binding_index(i) && r@[i].key == self.entries@[i].key,
    {
        let mut r: Vec<KeyBinding> = Vec::new();
        let mut i: usize = 0;
        while i < self.entries.len()
            invariant
                i <= self.entries@.len(),
                r@.len() == i,
                forall|j: int| 0 <= j < i ==>
                    r@[j].index == j + 1 && r@[j].key == self.entries@[j].key,
            decreases self.entries@.len() - i,
        {
            r.push(KeyBinding { index: i + 1, key: self.entries[i].key });
            i = i + 1;
        }
        r
    }

    /// The selector's argument list: the fixed flags with the title, the
    /// theme flag if a theme is set, then a flag and a key for each binding.
    pub fn selector_args(&self) -> (r: Vec<String>)
        ensures
            r@.map_values(|s: String| s@) == base_args(self.title@) + theme_args(self.theme_model())
                + binding_args(self.entries@, self.entries@.len() as int),
    {
        let mut r: Vec<String> = Vec::new();
        r.push(String::from_str("-dmenu"));
        r.push(String::from_str("-i"));
        r.push(String::from_str("-p"));
        r.push(self.title.clone());
        r.push(String::from_str("-no-fork"));
        r.push(String::from_str("-markup-rows"));
        r.push(String::from_str("-no-custom"));
        r.push(String::from_str("-theme-str"));
        r.push(String::from_str("configuration { matching: \"regex\"; }"));
        match &self.theme {
            Some(t) => {
                r.push(String::from_str("-theme"));
                r.push(t.clone());
            },
            None => {},
        }
        let ghost head = base_args(self.title@) + theme_args(self.theme_model());
        assert(r@.map_values(|s: String| s@) =~= head);
        let bindings = self.key_bindings();
        let mut i: usize = 0;
        while i < bindings.len()
            invariant
                i <= bindings@.len(),
                bindings@.len() == self.entries@.len(),
                forall|j: int| 0 <= j < bindings@.len() ==>
                    bindings@[j].index == binding_index(j) && bindings@[j].key == self.entries@[j].key,
                r@.map_values(|s: String| s@) == head + binding_args(self.entries@, i as int),
            decreases bindings@.len() - i,
        {
            let b = &bindings[i];
            assert(b.index == binding_index(i as int));
            let mut flag = String::from_str("-kb-custom-");
            let num = usize_to_string(b.index);
            flag.append(num.as_str());
            let key = char_to_string(b.key);
            let ghost before = r@.map_values(|s: String| s@);
            r.push(flag);
            r.push(key);
            proof {
                assert(flag@ == binding_flag((i + 1) as nat));
                assert(r@.map_values(|s: String| s@) =~= before + seq![
                    binding_flag((i + 1) as nat),
                    seq![self.entries@[i as int].key],
                ]);
                assert(binding_args(self.entries@, i + 1) == binding_args(self.entries@, i as int)
                    + seq![binding_flag((i + 1) as nat), seq![self.entries@[i as int].key]]);
            }
            i = i + 1;
        }
        r
    }

    /// The command chosen through the selector's exit status `code`, if any.
    pub fn command_for_exit_code(&self, code: i32) -> (r: Option<String>)
        ensures
            match r {
                Some(c) => selected_command(self.entries@, code as int) == Some(c@),
                None => selected_command(self.entries@, code as int) is None,
            },
    {
        match activation_index(code) {
            None => None,
            Some(index) => {
                let n = self.entries.len();
                if (index as usize) > n {
                    return None;
                }
                let pos = (index - 1) as usize;
                assert(pos as int == code - 10);
                let key = self.entries[pos].key;
                let mut j: usize = pos + 1;
                while j < n
                    invariant
                        n == self.entries@.len(),
                        pos < j <= n,
                        pos as int == code - 10,
                        key == self.entries@[pos as int].key,
                        forall|m: int| pos < m < j ==> self.entries@[m].key != key,
                    decreases n - j,
                {
                    if self.entries[j].key == key {
                        assert(!is_last_with_key(self.entries@, pos as int)) by {
                            assert(self.entries@[j as int].key == self.entries@[pos as int].key);
                        }
                        return None;
                    }
                    j = j + 1;
                }
                assert(is_last_with_key(self.entries@, pos as int));
                match self.get_command_for_key(key) {
                    Some(c) => Some(String::from_str(c)),
                    None => None,
                }
            },
        }
    }
}

} // verus!
