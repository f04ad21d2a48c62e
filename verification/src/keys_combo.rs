//! The state of the drop-down list that picks the key of a line: typing
//! narrows the keys to those whose name holds the typed text (case aside),
//! the arrows move through them, Enter takes one.
use vstd::prelude::*;
use crate::keys::GenericKeys;
use crate::text::{chars_of, lowercase_of, to_lowercase};

verus! {

/// Whether `needle` occurs in `hay`.
pub open spec fn contains_seq(hay: Seq<char>, needle: Seq<char>) -> bool {
    exists|i: int| 0 <= i && i + needle.len() <= hay.len() && #[trigger] hay.subrange(i, i + needle.len()) == needle
}

/// Whether a key's name is kept for the typed text: always for no text,
/// otherwise when the lowercased name holds the lowercased text.
pub open spec fn name_matches(name: Seq<char>, input: Seq<char>) -> bool {
    input.len() == 0 || contains_seq(lowercase_of(name), lowercase_of(input))
}

/// The keys kept for the typed text, in the order of the options.
pub open spec fn filtered<K>(options: Seq<(K, String)>, input: Seq<char>) -> Seq<K>
    decreases options.len(),
{
    if options.len() == 0 {
        Seq::empty()
    } else {
        let front = filtered(options.drop_last(), input);
        if name_matches(options.last().1@, input) {
            front.push(options.last().0)
        } else {
            front
        }
    }
}

/// The keys of the options, in order.
pub open spec fn option_keys<K>(options: Seq<(K, String)>) -> Seq<K> {
    Seq::new(options.len(), |i: int| options[i].0)
}

/// With no typed text every key is shown, in the order of the options.
pub proof fn lemma_filtered_empty_input<K>(options: Seq<(K, String)>, input: Seq<char>)
    requires
        input.len() == 0,
    ensures
        filtered(options, input) == option_keys(options),
    decreases options.len(),
{
    if options.len() > 0 {
        lemma_filtered_empty_input(options.drop_last(), input);
        assert(option_keys(options) =~= option_keys(options.drop_last()).push(options.last().0));
    } else {
        assert(option_keys(options) =~= Seq::<K>::empty());
    }
}

/// Whether `needle` occurs in `hay`.
fn contains_chars(hay: &[char], needle: &[char]) -> (r: bool)
    ensures
        r == contains_seq(hay@, needle@),
{
    let n: usize = hay.len();
    let m: usize = needle.len();
    if m > n {
        proof {
            assert forall|i: int| !(0 <= i && i + needle@.len() <= hay@.len() && #[trigger] hay@.subrange(
                i,
                i + needle@.len(),
            ) == needle@) by {}
        }
        return false;
    }
    let mut i: usize = 0;
    while i <= n - m
        invariant
            m <= n,
            n == hay@.len(),
            m == needle@.len(),
            i <= n - m + 1,
            forall|a: int| 0 <= a < i ==> #[trigger] hay@.subrange(a, a + m) != needle@,
        decreases n - m + 1 - i,
    {
        let mut j: usize = 0;
        while j < m && hay[i + j] == needle[j]
            invariant
                j <= m,
                i + m <= n,
                n == hay@.len(),
                m == needle@.len(),
                forall|x: int| 0 <= x < j ==> hay@[i + x] == needle@[x],
            decreases m - j,
        {
            j = j + 1;
        }
        if j == m {
            assert(hay@.subrange(i as int, i + m) =~= needle@);
            return true;
        }
        assert(hay@.subrange(i as int, i + m)[j as int] != needle@[j as int]);
        i = i + 1;
    }
    proof {
        assert forall|a: int| !(0 <= a && a + needle@.len() <= hay@.len() && #[trigger] hay@.subrange(a, a + needle@.len())
            == needle@) by {
            if 0 <= a && a + m <= n {
                assert(a < i);
            }
        }
    }
    false
}

/// A key pressed in the drop-down list.
#[derive(Debug, Clone, Copy, PartialEq, Eq, Structural)]
pub enum ComboKey {
    Esc,
    Enter,
    Down,
    Up,
    Backspace,
    Char(char),
    Other,
}

/// The drop-down list that picks a key.
pub struct KeysComboBox<Keys: GenericKeys> {
    options: Vec<(Keys, String)>,
    input: Vec<char>,
    filtered_options: Vec<Keys>,
    selected: Option<usize>,
    is_open: bool,
    selected_item: Keys,
}

/// The first position of `k` in `s`.
pub open spec fn first_index_of<K>(s: Seq<K>, k: K) -> int
    decreases s.len(),
{
    if s.len() == 0 {
        0
    } else if s[0] == k {
        0
    } else {
        1 + first_index_of(s.drop_first(), k)
    }
}

/// What a key does to the list: `o` before, `f` after.
pub open spec fn combo_step<Keys: GenericKeys>(o: KeysComboBox<Keys>, key: ComboKey, f: KeysComboBox<Keys>) -> bool {
    let n = o.shown().len();
    &&& f.options() == o.options()
    &&& match key {
        ComboKey::Esc => !f.open() && f.input() == o.input() && f.item() == o.item() && f.highlighted()
            == o.highlighted() && f.shown() == o.shown(),
        ComboKey::Enter => !f.open() && f.highlighted() == o.highlighted() && f.shown() == o.shown()
            && match o.highlighted() {
            Some(i) => f.item() == o.shown()[i as int] && f.input() == Seq::<char>::empty(),
            None => f.item() == o.item() && f.input() == o.input(),
        },
        ComboKey::Down => f.open() == o.open() && f.input() == o.input() && f.item() == o.item() && f.shown()
            == o.shown() && f.highlighted() == (if n == 0 {
            o.highlighted()
        } else {
            match o.highlighted() {
                Some(i) => Some(if i + 1 == n { 0usize } else { (i + 1) as usize }),
                None => Some(0usize),
            }
        }),
        ComboKey::Up => f.open() == o.open() && f.input() == o.input() && f.item() == o.item() && f.shown()
            == o.shown() && f.highlighted() == (if n == 0 {
            o.highlighted()
        } else {
            match o.highlighted() {
                Some(i) => Some(if i == 0 { (n - 1) as usize } else { (i - 1) as usize }),
                None => Some(0usize),
            }
        }),
        ComboKey::Backspace => f.open() == o.open() && f.item() == o.item() && f.input() == (if o.input().len()
            == 0 {
            o.input()
        } else {
            o.input().drop_last()
        }) && f.shown() == filtered(o.options(), f.input()) && f.highlighted() == (if f.shown().len() == 0 {
            None
        } else {
            Some(0usize)
        }),
        ComboKey::Char(c) => f.open() && f.item() == o.item() && f.input() == o.input().push(c) && f.shown()
            == filtered(o.options(), f.input()) && f.highlighted() == (if f.shown().len() == 0 {
            None
        } else {
            Some(0usize)
        }),
        ComboKey::Other => f == o,
    }
}

impl<Keys: GenericKeys> KeysComboBox<Keys> {
    #[verifier::type_invariant]
    spec fn highlight_in_range(self) -> bool {
        self.selected matches Some(i) ==> i < self.filtered_options@.len()
    }

    /// The keys to pick from, with their names.
    pub closed spec fn options(self) -> Seq<(Keys, String)> {
        self.options@
    }

    /// The text typed so far.
    pub closed spec fn input(self) -> Seq<char> {
        self.input@
    }

    /// The highlighted row of the list, if any.
    pub closed spec fn highlighted(self) -> Option<usize> {
        self.selected
    }

    /// Whether the list is open.
    pub closed spec fn open(self) -> bool {
        self.is_open
    }

    /// The key picked.
    pub closed spec fn item(self) -> Keys {
        self.selected_item
    }

    /// The keys shown in the list.
    pub closed spec fn shown(self) -> Seq<Keys> {
        self.filtered_options@
    }

    /// A closed list over `options` with `selected` picked and highlighted.
    pub fn new_with_selection(options: Vec<(Keys, String)>, selected: Keys) -> (r: Self)
        requires
            exists|i: int| 0 <= i < options@.len() && (#[trigger] options@[i]).0 == selected,
        ensures
            r.options() == options@,
            r.input() == Seq::<char>::empty(),
            r.shown() == option_keys(options@),
            r.item() == selected,
            !r.open(),
            r.highlighted() == Some(first_index_of(option_keys(options@), selected) as usize),
    {
        let mut keys: Vec<Keys> = Vec::new();
        let mut i: usize = 0;
        while i < options.len()
            invariant
                i <= options@.len(),
                keys@ == option_keys(options@.take(i as int)),
            decreases options@.len() - i,
        {
            keys.push(options[i].0);
            i = i + 1;
            assert(keys@ =~= option_keys(options@.take(i as int)));
        }
        assert(options@.take(i as int) =~= options@);
        let ghost ks = keys@;
        assert(exists|j: int| 0 <= j < ks.len() && ks[j] == selected) by {
            let j = choose|j: int| 0 <= j < options@.len() && (#[trigger] options@[j]).0 == selected;
            assert(ks[j] == selected);
        }
        let mut idx: usize = 0;
        assert(ks.skip(0) =~= ks);
        while idx < keys.len() && !keys[idx].same_key(&selected)
            invariant
                idx <= keys@.len(),
                keys@ == ks,
                exists|j: int| 0 <= j < ks.len() && ks[j] == selected,
                first_index_of(ks, selected) == idx + first_index_of(ks.skip(idx as int), selected),
                forall|j: int| 0 <= j < idx ==> ks[j] != selected,
            decreases keys@.len() - idx,
        {
            proof {
                assert(ks.skip(idx as int).drop_first() =~= ks.skip(idx + 1));
                assert(ks.skip(idx as int)[0] == ks[idx as int]);
            }
            idx = idx + 1;
        }
        proof {
            if idx == keys@.len() {
                let j = choose|j: int| 0 <= j < ks.len() && ks[j] == selected;
                assert(ks[j] != selected);
            }
            assert(ks.skip(idx as int)[0] == selected);
        }
        KeysComboBox {
            options,
            input: Vec::new(),
            filtered_options: keys,
            selected: Some(idx),
            is_open: false,
            selected_item: selected,
        }
    }

    /// A closed list over `options` with the first key picked.
    pub fn new(options: Vec<(Keys, String)>) -> (r: Self)
        requires
            options@.len() > 0,
        ensures
            r.options() == options@,
            r.input() == Seq::<char>::empty(),
            r.shown() == option_keys(options@),
            r.item() == options@[0].0,
            !r.open(),
            r.highlighted() == Some(0usize),
    {
        let first = options[0].0;
        proof {
            assert(options@[0].0 == first);
        }
        let r = Self::new_with_selection(options, first);
        proof {
            assert(option_keys(r.options())[0] == first);
        }
        r
    }

    /// The key picked.
    pub fn selected_item(&self) -> (r: Keys)
        ensures
            r == self.item(),
    {
        self.selected_item
    }

    /// Whether the list is open.
    pub fn is_open(&self) -> (r: bool)
        ensures
            r == self.open(),
    {
        self.is_open
    }

    /// The text typed so far.
    pub fn input_text(&self) -> (r: &Vec<char>)
        ensures
            r@ == self.input(),
    {
        &self.input
    }

    /// The keys shown in the list, and the highlighted row.
    pub fn shown_options(&self) -> (r: (&Vec<Keys>, Option<usize>))
        ensures
            r.0@ == self.shown(),
            r.1 == self.highlighted(),
            r.1 matches Some(i) ==> i < self.shown().len(),
    {
        proof {
            use_type_invariant(self);
        }
        (&self.filtered_options, self.selected)
    }

    /// Narrows the shown keys to the typed text and highlights the first.
    fn filter_options(&mut self)
        ensures
            final(self).options() == old(self).options(),
            final(self).input() == old(self).input(),
            final(self).open() == old(self).open(),
            final(self).item() == old(self).item(),
            final(self).shown() == filtered(old(self).options(), old(self).input()),
            final(self).highlighted() == (if filtered(old(self).options(), old(self).input()).len() == 0 {
                None
            } else {
                Some(0usize)
            }),
    {
        let n_in = self.input.len();
        let mut input_chars: Vec<char> = Vec::new();
        let mut k: usize = 0;
        while k < n_in
            invariant
                k <= n_in,
                n_in == self.input@.len(),
                input_chars@ == self.input@.take(k as int),
            decreases n_in - k,
        {
            input_chars.push(self.input[k]);
            k = k + 1;
            assert(input_chars@ =~= self.input@.take(k as int));
        }
        assert(input_chars@ =~= self.input@);
        let input_lower = chars_of(to_lowercase(crate::text::string_from_chars(input_chars.as_slice()).as_str()).as_str());
        let mut kept: Vec<Keys> = Vec::new();
        let mut i: usize = 0;
        assert(self.options@.take(0) =~= Seq::<(Keys, String)>::empty());
        while i < self.options.len()
            invariant
                i <= self.options@.len(),
                input_lower@ == lowercase_of(self.input@),
                input_chars@ == self.input@,
                kept@ == filtered(self.options@.take(i as int), self.input@),
            decreases self.options@.len() - i,
        {
            let ghost prefix = self.options@.take(i + 1);
            assert(prefix.drop_last() =~= self.options@.take(i as int));
            assert(prefix.last() == self.options@[i as int]);
            let keep = if input_chars.len() == 0 {
                true
            } else {
                let name_lower = chars_of(to_lowercase(self.options[i].1.as_str()).as_str());
                contains_chars(name_lower.as_slice(), input_lower.as_slice())
            };
            if keep {
                kept.push(self.options[i].0);
            }
            i = i + 1;
        }
        assert(self.options@.take(i as int) =~= self.options@);
        let sel = if kept.len() == 0 {
            None
        } else {
            Some(0)
        };
        self.selected = None;
        self.filtered_options = kept;
        self.selected = sel;
    }

    /// Reacts to a key. Typing opens the list and narrows it; the arrows
    /// move the highlight round the shown keys; Enter closes the list and,
    /// when a row is highlighted, picks its key and clears the typed text;
    /// Esc closes the list.
    pub fn handle_key(&mut self, key: ComboKey)
        ensures
            combo_step(*old(self), key, *final(self)),
    {
        proof {
            use_type_invariant(&*self);
        }
        match key {
            ComboKey::Esc => {
                self.is_open = false;
            },
            ComboKey::Enter => {
                self.is_open = false;
                match self.selected {
                    Some(i) => {
                        let choice = self.filtered_options[i];
                        self.input = Vec::new();
                        self.selected_item = choice;
                    },
                    None => {},
                }
            },
            ComboKey::Down => {
                let n = self.filtered_options.len();
                if n > 0 {
                    self.selected = match self.selected {
                        Some(i) => Some(if i + 1 == n { 0 } else { i + 1 }),
                        None => Some(0),
                    };
                }
            },
            ComboKey::Up => {
                let n = self.filtered_options.len();
                if n > 0 {
                    self.selected = match self.selected {
                        Some(i) => Some(if i == 0 { n - 1 } else { i - 1 }),
                        None => Some(0),
                    };
                }
            },
            ComboKey::Backspace => {
                self.selected = None;
                let mut typed: Vec<char> = Vec::new();
                std::mem::swap(&mut typed, &mut self.input);
                typed.pop();
                self.input = typed;
                self.filter_options();
            },
            ComboKey::Char(c) => {
                self.is_open = true;
                self.selected = None;
                let mut typed: Vec<char> = Vec::new();
                std::mem::swap(&mut typed, &mut self.input);
                typed.push(c);
                self.input = typed;
                self.filter_options();
            },
            ComboKey::Other => {},
        }
    }
}

} // verus!
