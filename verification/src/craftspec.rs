//! The craft-spec mini language: a compact, deterministic notation for
//! target items ("a bow with EPPSSA").
//!
//! Grammar (letters case-insensitive, whitespace ignored):
//!
//! ```text
//! spec      = slot+ ;                 (1..max_affix slots)
//! slot      = letter , { qualifier } ;
//! letter    = "E" | "P" | "S" | "A" ; (essence | prefix | suffix | desecrated)
//! qualifier = tier | binding | fracture ;
//! tier      = digit+ , [ "x" ] ;      ("P1" = prefix tier 1 or better; "x" = exact)
//! binding   = "[" , ident , "]" ;     (pin an affix: "[#1234]" by id, else by name)
//! fracture  = "!" ;
//! ```
//!
//! Parsing expands each slot into its candidate affixes for the given base
//! item, reports the concrete-target fan-out and, when every slot is pinned
//! to one affix, builds the exact target snapshot.

use vstd::prelude::*;
use vstd::string::StrSliceExecFns;
use vstd::string::StringExecFns;

use crate::errors::CraftPathError;
use crate::item::{insert_specifier, ItemSnapshot, SnapshotView};
use crate::provider::{EssenceDefinition, ItemInfoProvider, TierTable};
use crate::sorting::{sort_asc, sort_by_key_asc, SortKey, SpecSortKey};
use crate::table::{table_find, table_get};
use crate::types::{
    AffixClassEnum, AffixId, AffixLocationEnum, AffixSpecifier, AffixTierConstraints,
    AffixTierLevel, AffixTierLevelBoundsEnum, AffixTierLevelMeta, BaseItemId, EssenceId,
    ItemLevel, ItemRarityEnum,
};
use crate::text::{
    all_digits, chars_of, decimal_value, decimal_value_capped, digit_of, is_digit, is_whitespace,
    lowercase, parse_u16, parse_u16_spec, seq_contains, str_contains, to_lowercase, trim,
    trim_bounds, unicode_whitespace,
};

verus! {

/// Why a craft spec was refused.
#[derive(Clone, Copy, Debug, PartialEq, Eq, Structural)]
pub enum CraftSpecError {
    /// The spec holds no slot letter.
    EmptySpec(),
    /// A tier digit came before any slot letter.
    TierBeforeSlot(char),
    /// A `[` binding came before any slot letter.
    BindingBeforeSlot(),
    /// A `!` came before any slot letter.
    FractureBeforeSlot(),
    /// A tier qualifier outside 1..=255.
    TierOutOfRange(),
    /// The slot (its letter) has two tier qualifiers.
    DuplicateTier(char),
    /// A `[` without its `]`.
    UnterminatedBinding(),
    /// A binding that is empty once trimmed.
    EmptyBinding(),
    /// The slot (its letter) has two bindings.
    DuplicateBinding(char),
    /// A character outside the grammar.
    UnexpectedCharacter(char),
    /// A lookup in the item data failed.
    Lookup(CraftPathError),
    /// More slots (first) than the base group allows affixes (second).
    TooManySlots(usize, u8),
    /// The slot (0-based index) has no eligible affix on the base.
    NoEligibleAffix(u8),
    /// The slot is pinned both inline and by the bindings parameter.
    PinnedTwice(u8),
    /// A `#id` binding whose id is not a 16-bit number.
    InvalidIdBinding(),
    /// A `#id` binding naming an affix that is not eligible for the slot.
    IdNotEligible(u16),
    /// A name binding that matches no eligible affix.
    NoBindingMatch(),
    /// A name binding that matches this many eligible affixes.
    AmbiguousBinding(usize),
    /// The bindings parameter pins the slot to an affix it cannot hold.
    BoundAffixNotEligible(AffixId, u8),
    /// More prefix slots (first) than the per-side cap (second).
    TooManyPrefixes(usize, u8),
    /// More suffix slots (first) than the per-side cap (second).
    TooManySuffixes(usize, u8),
}

/// One slot as written in the spec text.
#[derive(Clone, Debug)]
pub struct RawSlot {
    /// `E`, `P`, `S` or `A` (upper case).
    pub letter: char,
    /// (tier level, exact).
    pub tier: Option<(u8, bool)>,
    pub fractured: bool,
    /// The trimmed text between `[` and `]`.
    pub binding: Option<String>,
}

/// Mathematical value of a [`RawSlot`].
pub struct RawSlotView {
    pub letter: char,
    pub tier: Option<(u8, bool)>,
    pub fractured: bool,
    pub binding: Option<Seq<char>>,
}

impl View for RawSlot {
    type V = RawSlotView;

    open spec fn view(&self) -> RawSlotView {
        RawSlotView {
            letter: self.letter,
            tier: self.tier,
            fractured: self.fractured,
            binding: match self.binding {
                Some(b) => Some(b@),
                None => None,
            },
        }
    }
}

pub open spec fn raw_views(s: Seq<RawSlot>) -> Seq<RawSlotView> {
    s.map_values(|r: RawSlot| r@)
}

/// Slot letters, either case.
pub open spec fn is_slot_letter(c: char) -> bool {
    c == 'e' || c == 'E' || c == 'p' || c == 'P' || c == 's' || c == 'S' || c == 'a' || c == 'A'
}

/// Upper case of a slot letter.
pub open spec fn upper_letter(c: char) -> char {
    if c == 'e' {
        'E'
    } else if c == 'p' {
        'P'
    } else if c == 's' {
        'S'
    } else if c == 'a' {
        'A'
    } else {
        c
    }
}

/// End of a tier number that starts at `i`: its digits, with the
/// whitespace among and after them, which the grammar ignores.
pub open spec fn tier_run_end(s: Seq<char>, i: int) -> int
    decreases s.len() - i,
{
    if 0 <= i < s.len() && (is_digit(s[i]) || unicode_whitespace(s[i])) {
        tier_run_end(s, i + 1)
    } else {
        i
    }
}

/// The digits of a text, in order.
pub open spec fn digits_of(s: Seq<char>) -> Seq<char>
    decreases s.len(),
{
    if s.len() == 0 {
        Seq::empty()
    } else if is_digit(s.last()) {
        digits_of(s.drop_last()).push(s.last())
    } else {
        digits_of(s.drop_last())
    }
}

/// Position of the first `]` at or after `i`.
pub open spec fn close_bracket(s: Seq<char>, i: int) -> Option<int>
    decreases s.len() - i,
{
    if i < 0 || i >= s.len() {
        None
    } else if s[i] == ']' {
        Some(i)
    } else {
        close_bracket(s, i + 1)
    }
}

/// A tier number ends within the text, after its first character when
/// that is a digit, and before anything that is neither a digit nor
/// whitespace.
pub proof fn lemma_tier_run_end(s: Seq<char>, i: int)
    requires
        0 <= i <= s.len(),
    ensures
        i <= tier_run_end(s, i) <= s.len(),
        i < s.len() && is_digit(s[i]) ==> tier_run_end(s, i) > i,
        tier_run_end(s, i) < s.len() ==> !is_digit(s[tier_run_end(s, i)]) && !unicode_whitespace(s[tier_run_end(s, i)]),
    decreases s.len() - i,
{
    if i < s.len() && (is_digit(s[i]) || unicode_whitespace(s[i])) {
        lemma_tier_run_end(s, i + 1);
    }
}

/// A closing bracket found from a position lies at or after it.
pub proof fn lemma_close_bracket(s: Seq<char>, i: int)
    ensures
        close_bracket(s, i) matches Some(k) ==> 0 <= i <= k < s.len() && s[k] == ']',
    decreases s.len() - i,
{
    if 0 <= i < s.len() && s[i] != ']' {
        lemma_close_bracket(s, i + 1);
    }
}

/// The state machine of the lexer: slots read so far are `acc`, the text
/// from position `i` on is still to be read.
pub open spec fn lex_from(s: Seq<char>, i: int, acc: Seq<RawSlotView>) -> Result<Seq<RawSlotView>, CraftSpecError>
    decreases s.len() - i,
{
    if i < 0 || i >= s.len() {
        if acc.len() == 0 {
            Err(CraftSpecError::EmptySpec())
        } else {
            Ok(acc)
        }
    } else {
        let c = s[i];
        if unicode_whitespace(c) {
            lex_from(s, i + 1, acc)
        } else if is_slot_letter(c) {
            lex_from(s, i + 1, acc.push(RawSlotView { letter: upper_letter(c), tier: None, fractured: false, binding: None }))
        } else if is_digit(c) {
            if acc.len() == 0 {
                Err(CraftSpecError::TierBeforeSlot(c))
            } else {
                let j = tier_run_end(s, i);
                let value = decimal_value(digits_of(s.subrange(i, j)));
                let exact = j < s.len() && (s[j] == 'x' || s[j] == 'X');
                let next = if exact { j + 1 } else { j };
                let last = acc.last();
                if value == 0 || value > 255 {
                    Err(CraftSpecError::TierOutOfRange())
                } else if last.tier is Some {
                    Err(CraftSpecError::DuplicateTier(last.letter))
                } else {
                    proof {
                        lemma_tier_run_end(s, i);
                    }
                    lex_from(s, next, acc.update(acc.len() - 1, RawSlotView { tier: Some((value as u8, exact)), ..last }))
                }
            }
        } else if c == '[' {
            if acc.len() == 0 {
                Err(CraftSpecError::BindingBeforeSlot())
            } else {
                match close_bracket(s, i + 1) {
                    None => Err(CraftSpecError::UnterminatedBinding()),
                    Some(k) => {
                        let ident = trim(s.subrange(i + 1, k));
                        let last = acc.last();
                        if ident.len() == 0 {
                            Err(CraftSpecError::EmptyBinding())
                        } else if last.binding is Some {
                            Err(CraftSpecError::DuplicateBinding(last.letter))
                        } else {
                            proof {
                                lemma_close_bracket(s, i + 1);
                            }
                            lex_from(s, k + 1, acc.update(acc.len() - 1, RawSlotView { binding: Some(ident), ..last }))
                        }
                    },
                }
            }
        } else if c == '!' {
            if acc.len() == 0 {
                Err(CraftSpecError::FractureBeforeSlot())
            } else {
                lex_from(s, i + 1, acc.update(acc.len() - 1, RawSlotView { fractured: true, ..acc.last() }))
            }
        } else {
            Err(CraftSpecError::UnexpectedCharacter(c))
        }
    }
}

/// What the lexer yields for a spec text.
pub open spec fn lex_spec(s: Seq<char>) -> Result<Seq<RawSlotView>, CraftSpecError> {
    lex_from(s, 0, Seq::empty())
}

/// The other case of a slot letter or of the exactness mark `x`; any other
/// character is left as it is.
pub open spec fn swap_case(c: char) -> char {
    if c == 'e' {
        'E'
    } else if c == 'E' {
        'e'
    } else if c == 'p' {
        'P'
    } else if c == 'P' {
        'p'
    } else if c == 's' {
        'S'
    } else if c == 'S' {
        's'
    } else if c == 'a' {
        'A'
    } else if c == 'A' {
        'a'
    } else if c == 'x' {
        'X'
    } else if c == 'X' {
        'x'
    } else {
        c
    }
}

/// Position `i` follows a `[` that no `]` has closed yet: it lies inside a
/// binding.
pub open spec fn in_binding(s: Seq<char>, i: int) -> bool {
    exists|b: int| 0 <= b < i && s[b] == '[' && #[trigger] no_close_between(s, b, i)
}

/// No `]` lies strictly between positions `b` and `i`.
pub open spec fn no_close_between(s: Seq<char>, b: int, i: int) -> bool {
    forall|k: int| b < k < i ==> s[k] != ']'
}

/// `t` is `s` with the case of some slot letters and exactness marks
/// outside bindings changed.
pub open spec fn same_but_case(s: Seq<char>, t: Seq<char>) -> bool {
    &&& t.len() == s.len()
    &&& forall|i: int| 0 <= i < s.len() ==> #[trigger] t[i] == s[i] || (!in_binding(s, i) && t[i] == swap_case(s[i]))
}

proof fn lemma_close_bracket_agree(s: Seq<char>, t: Seq<char>, j: int)
    requires
        t.len() == s.len(),
        0 <= j,
        forall|p: int| j <= p < s.len() && (close_bracket(s, j) matches Some(k) ==> p <= k) ==> #[trigger] t[p] == s[p],
    ensures
        close_bracket(t, j) == close_bracket(s, j),
    decreases s.len() - j,
{
    if j < s.len() && s[j] != ']' {
        lemma_close_bracket(s, j);
        assert(t[j] == s[j]);
        lemma_close_bracket_agree(s, t, j + 1);
    } else if j < s.len() {
        assert(close_bracket(s, j) == Some(j));
        assert(t[j] == s[j]);
    }
}

proof fn lemma_close_bracket_first(s: Seq<char>, i: int)
    requires
        0 <= i,
    ensures
        close_bracket(s, i) matches Some(k) ==> forall|p: int| i <= p < k ==> s[p] != ']',
        close_bracket(s, i) is None ==> forall|p: int| i <= p < s.len() ==> s[p] != ']',
    decreases s.len() - i,
{
    if 0 <= i < s.len() && s[i] != ']' {
        lemma_close_bracket_first(s, i + 1);
    }
}

proof fn lemma_run_case(s: Seq<char>, t: Seq<char>, i: int)
    requires
        same_but_case(s, t),
        0 <= i <= s.len(),
    ensures
        tier_run_end(t, i) == tier_run_end(s, i),
        forall|p: int| i <= p < tier_run_end(s, i) ==> (is_digit(#[trigger] s[p]) || unicode_whitespace(s[p])) && t[p] == s[p],
    decreases s.len() - i,
{
    if i < s.len() {
        assert(t[i] == s[i] || t[i] == swap_case(s[i]));
        if is_digit(s[i]) || unicode_whitespace(s[i]) {
            lemma_run_case(s, t, i + 1);
        }
    }
}

proof fn lemma_lex_case(s: Seq<char>, t: Seq<char>, i: int, acc: Seq<RawSlotView>)
    requires
        same_but_case(s, t),
        0 <= i <= s.len(),
        !in_binding(s, i),
    ensures
        match lex_from(s, i, acc) {
            Ok(v) => lex_from(t, i, acc) == Ok::<Seq<RawSlotView>, CraftSpecError>(v),
            Err(_) => lex_from(t, i, acc) is Err,
        },
    decreases s.len() - i,
{
    if i < s.len() {
        let c = s[i];
        let d = t[i];
        assert(d == c || d == swap_case(c));
        assert forall|b: int| 0 <= b < i + 1 && s[b] == '[' && c != '[' implies !#[trigger] no_close_between(s, b, i + 1) by {
            if b < i {
                assert(!no_close_between(s, b, i));
            }
        }
        if unicode_whitespace(c) || is_slot_letter(c) || c == '!' {
            if !unicode_whitespace(c) && is_slot_letter(c) {
                assert(upper_letter(d) == upper_letter(c));
                lemma_lex_case(s, t, i + 1, acc.push(RawSlotView { letter: upper_letter(c), tier: None, fractured: false, binding: None }));
            } else if c == '!' {
                if acc.len() > 0 {
                    lemma_lex_case(s, t, i + 1, acc.update(acc.len() - 1, RawSlotView { fractured: true, ..acc.last() }));
                }
            } else {
                lemma_lex_case(s, t, i + 1, acc);
            }
        } else if is_digit(c) {
            assert(d == c);
            if acc.len() > 0 {
                lemma_run_case(s, t, i);
                lemma_tier_run_end(s, i);
                let j = tier_run_end(s, i);
                assert(t.subrange(i, j) =~= s.subrange(i, j));
                if j < s.len() {
                    assert(t[j] == s[j] || t[j] == swap_case(s[j]));
                }
                let exact = j < s.len() && (s[j] == 'x' || s[j] == 'X');
                let next = if exact { j + 1 } else { j };
                assert forall|b: int| 0 <= b < next && s[b] == '[' implies !#[trigger] no_close_between(s, b, next) by {
                    if b < i {
                        assert(!no_close_between(s, b, i));
                    }
                }
                let value = decimal_value(digits_of(s.subrange(i, j)));
                let last = acc.last();
                if !(value == 0 || value > 255) && last.tier is None {
                    lemma_lex_case(s, t, next, acc.update(acc.len() - 1, RawSlotView { tier: Some((value as u8, exact)), ..last }));
                }
            }
        } else if c == '[' {
            assert(d == c);
            if acc.len() > 0 {
                lemma_close_bracket_first(s, i + 1);
                lemma_close_bracket(s, i + 1);
                assert forall|p: int| i + 1 <= p < s.len() && (close_bracket(s, i + 1) matches Some(k) ==> p <= k)
                    implies #[trigger] t[p] == s[p] by {
                    if s[p] != ']' {
                        assert(no_close_between(s, i, p));
                        assert(in_binding(s, p));
                    }
                    assert(t[p] == s[p] || (!in_binding(s, p) && t[p] == swap_case(s[p])));
                }
                lemma_close_bracket_agree(s, t, i + 1);
                match close_bracket(s, i + 1) {
                    Some(k) => {
                        assert forall|p: int| i + 1 <= p < k implies #[trigger] t[p] == s[p] by {
                            assert(t[p] == s[p]);
                        }
                        assert(t.subrange(i + 1, k) =~= s.subrange(i + 1, k));
                        assert forall|b: int| 0 <= b < k + 1 && s[b] == '[' implies !#[trigger] no_close_between(s, b, k + 1) by {
                            assert(s[k] == ']');
                        }
                        let ident = trim(s.subrange(i + 1, k));
                        let last = acc.last();
                        if ident.len() > 0 && last.binding is None {
                            lemma_lex_case(s, t, k + 1, acc.update(acc.len() - 1, RawSlotView { binding: Some(ident), ..last }));
                        }
                    },
                    None => {},
                }
            }
        } else {
            assert(!is_slot_letter(d) && !is_digit(d) && !unicode_whitespace(d) && d != '[' && d != '!');
        }
    }
}

/// The case of slot letters and exactness marks outside bindings does not
/// matter: a text and the same text with some of them in the other case
/// are both refused, or both give the same slots.
pub proof fn law_lex_case_insensitive(s: Seq<char>, t: Seq<char>)
    requires
        same_but_case(s, t),
    ensures
        match lex_spec(s) {
            Ok(v) => lex_spec(t) == Ok::<Seq<RawSlotView>, CraftSpecError>(v),
            Err(_) => lex_spec(t) is Err,
        },
{
    lemma_lex_case(s, t, 0, Seq::empty());
}

/// `t` is `s` with one whitespace character inserted at position `p`.
pub open spec fn spaced(s: Seq<char>, t: Seq<char>, p: int) -> bool {
    &&& 0 <= p <= s.len()
    &&& t.len() == s.len() + 1
    &&& forall|q: int| 0 <= q < p ==> #[trigger] t[q] == s[q]
    &&& unicode_whitespace(t[p])
    &&& forall|q: int| p <= q < s.len() ==> t[q + 1] == #[trigger] s[q]
}

proof fn lemma_run_shift(s: Seq<char>, t: Seq<char>, p: int, i: int)
    requires
        spaced(s, t, p),
        p <= i <= s.len(),
    ensures
        tier_run_end(t, i + 1) == tier_run_end(s, i) + 1,
    decreases s.len() - i,
{
    if i < s.len() {
        assert(t[i + 1] == s[i]);
        if is_digit(s[i]) || unicode_whitespace(s[i]) {
            lemma_run_shift(s, t, p, i + 1);
        }
    }
}

proof fn lemma_close_shift(s: Seq<char>, t: Seq<char>, p: int, i: int)
    requires
        spaced(s, t, p),
        p <= i,
    ensures
        close_bracket(t, i + 1) == match close_bracket(s, i) {
            Some(k) => Some(k + 1),
            None => None::<int>,
        },
    decreases s.len() - i,
{
    if i < s.len() {
        assert(t[i + 1] == s[i]);
        if s[i] != ']' {
            lemma_close_shift(s, t, p, i + 1);
        }
    }
}

/// After the inserted whitespace, the lexer reads the same from `t` as
/// from `s`, one position later.
proof fn lemma_lex_shift(s: Seq<char>, t: Seq<char>, p: int, i: int, acc: Seq<RawSlotView>)
    requires
        spaced(s, t, p),
        p <= i <= s.len(),
    ensures
        lex_from(t, i + 1, acc) == lex_from(s, i, acc),
    decreases s.len() - i,
{
    if i < s.len() {
        let c = s[i];
        assert(t[i + 1] == c);
        if unicode_whitespace(c) {
            lemma_lex_shift(s, t, p, i + 1, acc);
        } else if is_slot_letter(c) {
            lemma_lex_shift(s, t, p, i + 1, acc.push(RawSlotView { letter: upper_letter(c), tier: None, fractured: false, binding: None }));
        } else if is_digit(c) {
            if acc.len() > 0 {
                lemma_run_shift(s, t, p, i);
                lemma_tier_run_end(s, i);
                let j = tier_run_end(s, i);
                assert(t.subrange(i + 1, j + 1) =~= s.subrange(i, j));
                if j < s.len() {
                    assert(t[j + 1] == s[j]);
                }
                let exact = j < s.len() && (s[j] == 'x' || s[j] == 'X');
                let next = if exact { j + 1 } else { j };
                let value = decimal_value(digits_of(s.subrange(i, j)));
                let last = acc.last();
                if !(value == 0 || value > 255) && last.tier is None {
                    lemma_lex_shift(s, t, p, next, acc.update(acc.len() - 1, RawSlotView { tier: Some((value as u8, exact)), ..last }));
                }
            }
        } else if c == '[' {
            if acc.len() > 0 {
                lemma_close_shift(s, t, p, i + 1);
                lemma_close_bracket(s, i + 1);
                match close_bracket(s, i + 1) {
                    Some(k) => {
                        assert(t.subrange(i + 2, k + 1) =~= s.subrange(i + 1, k));
                        let ident = trim(s.subrange(i + 1, k));
                        let last = acc.last();
                        if ident.len() > 0 && last.binding is None {
                            lemma_lex_shift(s, t, p, k + 1, acc.update(acc.len() - 1, RawSlotView { binding: Some(ident), ..last }));
                        }
                    },
                    None => {},
                }
            }
        } else if c == '!' {
            if acc.len() > 0 {
                lemma_lex_shift(s, t, p, i + 1, acc.update(acc.len() - 1, RawSlotView { fractured: true, ..acc.last() }));
            }
        }
    }
}

proof fn lemma_run_spaced(s: Seq<char>, t: Seq<char>, p: int, i: int)
    requires
        spaced(s, t, p),
        0 <= i <= p,
    ensures
        tier_run_end(t, i) == if tier_run_end(s, i) >= p { tier_run_end(s, i) + 1 } else { tier_run_end(s, i) },
    decreases p - i,
{
    if i == p {
        lemma_run_shift(s, t, p, p);
        lemma_tier_run_end(s, p);
    } else {
        assert(t[i] == s[i]);
        if is_digit(s[i]) || unicode_whitespace(s[i]) {
            lemma_run_spaced(s, t, p, i + 1);
        }
    }
}

/// Whitespace among the digits of a tier number does not change them.
proof fn lemma_digits_spaced(x: Seq<char>, y: Seq<char>, k: int)
    requires
        spaced(x, y, k),
    ensures
        digits_of(y) == digits_of(x),
    decreases x.len(),
{
    if k == x.len() {
        assert(y.drop_last() =~= x);
        assert(!is_digit(y.last()));
    } else {
        assert(y.last() == x.last());
        assert(spaced(x.drop_last(), y.drop_last(), k));
        lemma_digits_spaced(x.drop_last(), y.drop_last(), k);
    }
}

proof fn lemma_lex_spaced(s: Seq<char>, t: Seq<char>, p: int, i: int, acc: Seq<RawSlotView>)
    requires
        spaced(s, t, p),
        !in_binding(s, p),
        0 <= i <= p,
    ensures
        lex_from(t, i, acc) == lex_from(s, i, acc),
    decreases p - i,
{
    if i == p {
        lemma_lex_shift(s, t, p, p, acc);
    } else {
        let c = s[i];
        assert(t[i] == c);
        if unicode_whitespace(c) {
            lemma_lex_spaced(s, t, p, i + 1, acc);
        } else if is_slot_letter(c) {
            lemma_lex_spaced(s, t, p, i + 1, acc.push(RawSlotView { letter: upper_letter(c), tier: None, fractured: false, binding: None }));
        } else if is_digit(c) {
            if acc.len() > 0 {
                lemma_run_spaced(s, t, p, i);
                lemma_tier_run_end(s, i);
                let j = tier_run_end(s, i);
                let exact = j < s.len() && (s[j] == 'x' || s[j] == 'X');
                let next = if exact { j + 1 } else { j };
                if j >= p {
                    lemma_run_shift(s, t, p, j);
                    assert(spaced(s.subrange(i, j), t.subrange(i, j + 1), p - i));
                    lemma_digits_spaced(s.subrange(i, j), t.subrange(i, j + 1), p - i);
                    if j < s.len() {
                        assert(t[j + 1] == s[j]);
                    }
                } else {
                    assert(t.subrange(i, j) =~= s.subrange(i, j));
                    assert(t[j] == s[j]);
                }
                let value = decimal_value(digits_of(s.subrange(i, j)));
                let last = acc.last();
                if !(value == 0 || value > 255) && last.tier is None {
                    let acc2 = acc.update(acc.len() - 1, RawSlotView { tier: Some((value as u8, exact)), ..last });
                    if j >= p {
                        lemma_lex_shift(s, t, p, next, acc2);
                    } else {
                        lemma_lex_spaced(s, t, p, next, acc2);
                    }
                }
            }
        } else if c == '[' {
            if acc.len() > 0 {
                assert(!no_close_between(s, i, p));
                let q = choose|q: int| i < q < p && s[q] == ']';
                lemma_close_bracket_first(s, i + 1);
                lemma_close_bracket(s, i + 1);
                let k = close_bracket(s, i + 1)->Some_0;
                assert(k <= q);
                assert forall|r: int| i + 1 <= r < t.len() && (close_bracket(s, i + 1) matches Some(kk) ==> r <= kk)
                    implies #[trigger] t[r] == s[r] by {
                    assert(r < p);
                }
                lemma_close_bracket_agree_spaced(s, t, i + 1, k);
                assert(t.subrange(i + 1, k) =~= s.subrange(i + 1, k));
                let ident = trim(s.subrange(i + 1, k));
                let last = acc.last();
                if ident.len() > 0 && last.binding is None {
                    lemma_lex_spaced(s, t, p, k + 1, acc.update(acc.len() - 1, RawSlotView { binding: Some(ident), ..last }));
                }
            }
        } else if c == '!' {
            if acc.len() > 0 {
                lemma_lex_spaced(s, t, p, i + 1, acc.update(acc.len() - 1, RawSlotView { fractured: true, ..acc.last() }));
            }
        }
    }
}

proof fn lemma_close_bracket_agree_spaced(s: Seq<char>, t: Seq<char>, j: int, k: int)
    requires
        0 <= j <= k < s.len(),
        s.len() < t.len(),
        close_bracket(s, j) == Some(k),
        forall|r: int| j <= r <= k ==> #[trigger] t[r] == s[r],
    ensures
        close_bracket(t, j) == Some(k),
    decreases k - j,
{
    assert(t[j] == s[j]);
    lemma_close_bracket(s, j);
    if s[j] != ']' {
        lemma_close_bracket_agree_spaced(s, t, j + 1, k);
    }
}

/// Whitespace outside bindings does not matter: inserting a whitespace
/// character anywhere outside a binding leaves what the lexer yields
/// unchanged, slots and errors alike.
pub proof fn law_lex_ignores_whitespace(s: Seq<char>, t: Seq<char>, p: int)
    requires
        spaced(s, t, p),
        !in_binding(s, p),
    ensures
        lex_spec(t) == lex_spec(s),
{
    lemma_lex_spaced(s, t, p, 0, Seq::empty());
}

/// An executable lexer result agrees with the lexer specification.
pub open spec fn lex_matches(r: Result<Vec<RawSlot>, CraftSpecError>, s: Seq<char>) -> bool {
    match r {
        Ok(v) => lex_spec(s) == Ok::<Seq<RawSlotView>, CraftSpecError>(raw_views(v@)),
        Err(e) => lex_spec(s) == Err::<Seq<RawSlotView>, CraftSpecError>(e),
    }
}

fn slot_letter_upper(c: char) -> (r: Option<char>)
    ensures
        match r {
            Some(u) => is_slot_letter(c) && u == upper_letter(c),
            None => !is_slot_letter(c),
        },
{
    if c == 'e' || c == 'E' {
        Some('E')
    } else if c == 'p' || c == 'P' {
        Some('P')
    } else if c == 's' || c == 'S' {
        Some('S')
    } else if c == 'a' || c == 'A' {
        Some('A')
    } else {
        None
    }
}

/// Replace the last slot, keeping the view sequence in step.
fn replace_last(slots: &mut Vec<RawSlot>, slot: RawSlot)
    requires
        old(slots)@.len() > 0,
    ensures
        raw_views(final(slots)@) == raw_views(old(slots)@).update(old(slots)@.len() - 1, slot@),
        final(slots)@.len() == old(slots)@.len(),
{
    let _ = slots.pop();
    slots.push(slot);
    assert(raw_views(slots@) =~= raw_views(old(slots)@).update(old(slots)@.len() - 1, slot@));
}

/// Read the slots of a spec text.
pub fn lex(spec: &str) -> (r: Result<Vec<RawSlot>, CraftSpecError>)
    ensures
        lex_matches(r, spec@),
{
    let s = chars_of(spec);
    let mut slots: Vec<RawSlot> = Vec::new();
    let mut i: usize = 0;
    assert(raw_views(slots@) =~= Seq::<RawSlotView>::empty());
    while i < s.len()
        invariant
            s@ == spec@,
            i <= s@.len(),
            lex_spec(s@) == lex_from(s@, i as int, raw_views(slots@)),
        decreases s.len() - i,
    {
        let c = s[i];
        let ghost acc = raw_views(slots@);
        if is_whitespace(c) {
            i += 1;
        } else if let Some(u) = slot_letter_upper(c) {
            let slot = RawSlot { letter: u, tier: None, fractured: false, binding: None };
            slots.push(slot);
            assert(raw_views(slots@) =~= acc.push(slot@));
            i += 1;
        } else if digit_of(c).is_some() {
            if slots.len() == 0 {
                return Err(CraftSpecError::TierBeforeSlot(c));
            }
            let mut j = i;
            let mut digits: Vec<char> = Vec::new();
            assert(s@.subrange(i as int, i as int) =~= Seq::<char>::empty());
            while j < s.len() && (digit_of(s[j]).is_some() || is_whitespace(s[j]))
                invariant
                    i <= j <= s@.len(),
                    tier_run_end(s@, i as int) == tier_run_end(s@, j as int),
                    digits@ == digits_of(s@.subrange(i as int, j as int)),
                    all_digits(digits@),
                decreases s.len() - j,
            {
                assert(s@.subrange(i as int, j + 1).drop_last() =~= s@.subrange(i as int, j as int));
                assert(s@.subrange(i as int, j + 1).last() == s@[j as int]);
                if digit_of(s[j]).is_some() {
                    digits.push(s[j]);
                }
                j += 1;
            }
            proof {
                lemma_tier_run_end(s@, i as int);
            }
            assert(digits@.subrange(0, digits@.len() as int) =~= digits@);
            let value = decimal_value_capped(&digits, 0, digits.len(), 256);
            let exact = j < s.len() && (s[j] == 'x' || s[j] == 'X');
            let next = if exact { j + 1 } else { j };
            if value == 0 || value > 255 {
                return Err(CraftSpecError::TierOutOfRange());
            }
            let n = slots.len();
            if slots[n - 1].tier.is_some() {
                return Err(CraftSpecError::DuplicateTier(slots[n - 1].letter));
            }
            let updated = RawSlot {
                letter: slots[n - 1].letter,
                tier: Some((value as u8, exact)),
                fractured: slots[n - 1].fractured,
                binding: slots[n - 1].binding.clone(),
            };
            replace_last(&mut slots, updated);
            i = next;
        } else if c == '[' {
            if slots.len() == 0 {
                return Err(CraftSpecError::BindingBeforeSlot());
            }
            let mut k = i + 1;
            while k < s.len() && s[k] != ']'
                invariant
                    i < k <= s@.len(),
                    close_bracket(s@, i + 1) == close_bracket(s@, k as int),
                decreases s.len() - k,
            {
                k += 1;
            }
            if k == s.len() {
                return Err(CraftSpecError::UnterminatedBinding());
            }
            let (a, b) = trim_bounds(&s, i + 1, k);
            if a == b {
                return Err(CraftSpecError::EmptyBinding());
            }
            let n = slots.len();
            if slots[n - 1].binding.is_some() {
                return Err(CraftSpecError::DuplicateBinding(slots[n - 1].letter));
            }
            let text = String::from_str(spec.substring_char(a, b));
            let updated = RawSlot {
                letter: slots[n - 1].letter,
                tier: slots[n - 1].tier,
                fractured: slots[n - 1].fractured,
                binding: Some(text),
            };
            replace_last(&mut slots, updated);
            i = k + 1;
        } else if c == '!' {
            if slots.len() == 0 {
                return Err(CraftSpecError::FractureBeforeSlot());
            }
            let n = slots.len();
            let updated = RawSlot {
                letter: slots[n - 1].letter,
                tier: slots[n - 1].tier,
                fractured: true,
                binding: slots[n - 1].binding.clone(),
            };
            replace_last(&mut slots, updated);
            i += 1;
        } else {
            return Err(CraftSpecError::UnexpectedCharacter(c));
        }
    }
    if slots.len() == 0 {
        Err(CraftSpecError::EmptySpec())
    } else {
        Ok(slots)
    }
}


impl SpecSortKey for AffixId {
    open spec fn sort_key(&self) -> int {
        self.0 as int
    }
}

impl SortKey for AffixId {
    fn key(&self) -> (k: u64) {
        self.0 as u64
    }
}

/// Affix class and fixed location of a slot letter: `P`/`S` are base
/// prefixes/suffixes, `E` essence affixes and `A` desecrated affixes, the
/// latter two at whatever location the affix has.
pub open spec fn letter_class(letter: char) -> (AffixClassEnum, Option<AffixLocationEnum>) {
    if letter == 'P' {
        (AffixClassEnum::Base, Some(AffixLocationEnum::Prefix))
    } else if letter == 'S' {
        (AffixClassEnum::Base, Some(AffixLocationEnum::Suffix))
    } else if letter == 'E' {
        (AffixClassEnum::Essence, None)
    } else {
        (AffixClassEnum::Desecrated, None)
    }
}

/// A tier qualifier accepts tier `t`: no qualifier accepts all, an exact one
/// only its tier, a minimum one its tier or better (numerically smaller).
pub open spec fn tier_accepts(t: u8, tier: Option<(u8, bool)>) -> bool {
    match tier {
        None => true,
        Some((w, exact)) => if exact { t == w } else { t <= w },
    }
}

/// Some tier of the affix is open at this item level and accepted.
pub open spec fn tier_reachable(tiers: Seq<(AffixTierLevel, AffixTierLevelMeta)>, ilvl: ItemLevel, tier: Option<(u8, bool)>) -> bool {
    exists|k: int|
        0 <= k < tiers.len() && #[trigger] tiers[k].1.min_item_level.0 <= ilvl.0 && tier_accepts(tiers[k].0.0, tier)
}

/// The pool's affixes of the slot's class and location that have an
/// accepted tier at the item level, in pool order; the first pool affix
/// without a definition fails the lookup.
pub open spec fn base_slot_candidates(
    pv: ItemInfoProvider,
    pool: Seq<(AffixId, TierTable)>,
    class: AffixClassEnum,
    loc: Option<AffixLocationEnum>,
    ilvl: ItemLevel,
    tier: Option<(u8, bool)>,
) -> Result<Seq<AffixId>, CraftPathError>
    decreases pool.len(),
{
    if pool.len() == 0 {
        Ok(Seq::empty())
    } else {
        match base_slot_candidates(pv, pool.drop_last(), class, loc, ilvl, tier) {
            Err(e) => Err(e),
            Ok(prev) => {
                let id = pool.last().0;
                match pv.affix_def(id) {
                    None => Err(CraftPathError::AffixWithoutDefinition(id)),
                    Some(def) => if def.affix_class == class && (loc matches Some(l) ==> def.affix_location == l)
                        && tier_reachable(pool.last().1@, ilvl, tier) {
                        Ok(prev.push(id))
                    } else {
                        Ok(prev)
                    },
                }
            },
        }
    }
}

/// The affixes that the essences list for the base, essence by essence.
pub open spec fn essence_ids(es: Seq<(EssenceId, EssenceDefinition)>, base: BaseItemId) -> Seq<AffixId>
    decreases es.len(),
{
    if es.len() == 0 {
        Seq::empty()
    } else {
        essence_ids(es.drop_last(), base) + match table_get(es.last().1.base_tier_table@, base) {
            Some(t) => t@,
            None => Seq::empty(),
        }
    }
}

/// First occurrences only.
pub open spec fn dedup_ids(s: Seq<AffixId>) -> Seq<AffixId>
    decreases s.len(),
{
    if s.len() == 0 {
        Seq::empty()
    } else {
        let d = dedup_ids(s.drop_last());
        if d.contains(s.last()) {
            d
        } else {
            d.push(s.last())
        }
    }
}

/// Candidate affixes of a slot on the base, sorted by id.
pub open spec fn spec_slot_candidates(
    pv: ItemInfoProvider,
    class: AffixClassEnum,
    loc: Option<AffixLocationEnum>,
    base: BaseItemId,
    ilvl: ItemLevel,
    tier: Option<(u8, bool)>,
) -> Result<Seq<AffixId>, CraftPathError> {
    if class == AffixClassEnum::Essence {
        Ok(sort_asc(dedup_ids(essence_ids(pv.cache_essence_def@, base))))
    } else {
        match pv.base_pool(base) {
            None => Err(CraftPathError::ItemWithoutAffixInformation(base)),
            Some(pool) => match base_slot_candidates(pv, pool@, class, loc, ilvl, tier) {
                Ok(c) => Ok(sort_asc(c)),
                Err(e) => Err(e),
            },
        }
    }
}

/// Whether the id occurs in the list.
pub fn contains_id(v: &Vec<AffixId>, id: AffixId) -> (r: bool)
    ensures
        r == v@.contains(id),
{
    let mut i: usize = 0;
    while i < v.len()
        invariant
            i <= v@.len(),
            forall|k: int| 0 <= k < i ==> v@[k] != id,
        decreases v.len() - i,
    {
        if v[i].0 == id.0 {
            return true;
        }
        i += 1;
    }
    false
}

fn tier_accepts_exec(t: u8, tier: &Option<(u8, bool)>) -> (r: bool)
    ensures
        r == tier_accepts(t, *tier),
{
    match tier {
        None => true,
        Some((w, exact)) => if *exact { t == *w } else { t <= *w },
    }
}

fn tier_reachable_exec(tiers: &TierTable, ilvl: &ItemLevel, tier: &Option<(u8, bool)>) -> (r: bool)
    ensures
        r == tier_reachable(tiers@, *ilvl, *tier),
{
    let mut k: usize = 0;
    while k < tiers.len()
        invariant
            k <= tiers@.len(),
            forall|j: int| 0 <= j < k ==> !(#[trigger] tiers@[j].1.min_item_level.0 <= ilvl.0 && tier_accepts(tiers@[j].0.0, *tier)),
        decreases tiers.len() - k,
    {
        if tiers[k].1.min_item_level.0 <= ilvl.0 && tier_accepts_exec(tiers[k].0.0, tier) {
            return true;
        }
        k += 1;
    }
    false
}

/// The affixes the essences list for the base, first occurrences only.
fn essence_candidates(provider: &ItemInfoProvider, base_id: &BaseItemId) -> (r: Vec<AffixId>)
    ensures
        r@ == dedup_ids(essence_ids(provider.cache_essence_def@, *base_id)),
{
    let es = &provider.cache_essence_def;
    let mut out: Vec<AffixId> = Vec::new();
    let mut e: usize = 0;
    while e < es.len()
        invariant
            e <= es@.len(),
            out@ == dedup_ids(essence_ids(es@.take(e as int), *base_id)),
        decreases es.len() - e,
    {
        let ghost before = essence_ids(es@.take(e as int), *base_id);
        assert(es@.take(e + 1).drop_last() =~= es@.take(e as int));
        match table_find(&es[e].1.base_tier_table, base_id) {
            None => {
                assert(essence_ids(es@.take(e + 1), *base_id) =~= before);
            },
            Some(t) => {
                let table = &es[e].1.base_tier_table[t].1;
                let mut j: usize = 0;
                while j < table.len()
                    invariant
                        j <= table@.len(),
                        out@ == dedup_ids(before + table@.take(j as int)),
                    decreases table.len() - j,
                {
                    let id = table[j];
                    assert((before + table@.take(j + 1)).drop_last() =~= before + table@.take(j as int));
                    if !contains_id(&out, id) {
                        out.push(id);
                    }
                    j += 1;
                }
                assert(table@.take(table@.len() as int) =~= table@);
                assert(essence_ids(es@.take(e + 1), *base_id) =~= before + table@);
            },
        }
        e += 1;
    }
    assert(es@.take(es@.len() as int) =~= es@);
    out
}

/// Candidate affixes for a slot on the base: base-class and desecrated
/// candidates come from the base's affix pool (with the slot's location, if
/// it fixes one), essence candidates from the essence tables that cover the
/// base. Sorted by id.
pub fn slot_candidates(
    class: &AffixClassEnum,
    location: &Option<AffixLocationEnum>,
    base_id: &BaseItemId,
    item_level: &ItemLevel,
    tier: &Option<(u8, bool)>,
    provider: &ItemInfoProvider,
) -> (r: Result<Vec<AffixId>, CraftPathError>)
    ensures
        match r {
            Ok(v) => spec_slot_candidates(*provider, *class, *location, *base_id, *item_level, *tier)
                == Ok::<Seq<AffixId>, CraftPathError>(v@),
            Err(e) => spec_slot_candidates(*provider, *class, *location, *base_id, *item_level, *tier)
                == Err::<Seq<AffixId>, CraftPathError>(e),
        },
{
    if *class == AffixClassEnum::Essence {
        let out = essence_candidates(provider, base_id);
        return Ok(sort_by_key_asc(out));
    }
    let pool = provider.lookup_base_item_mods(base_id)?;
    let mut out: Vec<AffixId> = Vec::new();
    let mut i: usize = 0;
    while i < pool.len()
        invariant
            i <= pool@.len(),
            *class != AffixClassEnum::Essence,
            provider.base_pool(*base_id) == Some(*pool),
            base_slot_candidates(*provider, pool@.take(i as int), *class, *location, *item_level, *tier)
                == Ok::<Seq<AffixId>, CraftPathError>(out@),
        decreases pool.len() - i,
    {
        let id = pool[i].0;
        assert(pool@.take(i + 1).drop_last() =~= pool@.take(i as int));
        let def = match provider.lookup_affix_definition(&id) {
            Ok(d) => d,
            Err(e) => {
                proof {
                    assert(base_slot_candidates(*provider, pool@.take(i + 1), *class, *location, *item_level, *tier)
                        == Err::<Seq<AffixId>, CraftPathError>(e));
                    lemma_base_candidates_err(*provider, pool@, *class, *location, *item_level, *tier, i as int + 1);
                }
                return Err(e);
            },
        };
        let keep = def.affix_class == *class && match location {
            Some(loc) => def.affix_location == *loc,
            None => true,
        } && tier_reachable_exec(&pool[i].1, item_level, tier);
        if keep {
            out.push(id);
        }
        i += 1;
    }
    assert(pool@.take(pool@.len() as int) =~= pool@);
    Ok(sort_by_key_asc(out))
}

/// Once a prefix of the pool fails, the whole pool fails the same way.
pub proof fn lemma_base_candidates_err(
    pv: ItemInfoProvider,
    pool: Seq<(AffixId, TierTable)>,
    class: AffixClassEnum,
    loc: Option<AffixLocationEnum>,
    ilvl: ItemLevel,
    tier: Option<(u8, bool)>,
    n: int,
)
    requires
        0 <= n <= pool.len(),
        base_slot_candidates(pv, pool.take(n), class, loc, ilvl, tier) is Err,
    ensures
        base_slot_candidates(pv, pool, class, loc, ilvl, tier) == base_slot_candidates(pv, pool.take(n), class, loc, ilvl, tier),
    decreases pool.len() - n,
{
    if n < pool.len() {
        assert(pool.take(n + 1).drop_last() =~= pool.take(n));
        lemma_base_candidates_err(pv, pool, class, loc, ilvl, tier, n + 1);
    } else {
        assert(pool.take(n) =~= pool);
    }
}


/// Lower-cased views of optional texts.
pub open spec fn lowered_views(l: Seq<Option<String>>) -> Seq<Option<Seq<char>>> {
    l.map_values(|o: Option<String>| match o {
        Some(t) => Some(t@),
        None => None,
    })
}

/// The candidates whose lower-cased description (`lowered[i]` for
/// `cands[i]`; `None` when the affix has no definition) contains the needle,
/// in candidate order.
pub open spec fn name_matches(cands: Seq<AffixId>, lowered: Seq<Option<Seq<char>>>, needle: Seq<char>) -> Seq<AffixId>
    decreases cands.len(),
{
    if cands.len() == 0 {
        Seq::empty()
    } else {
        let prev = name_matches(cands.drop_last(), lowered, needle);
        let i = cands.len() - 1;
        if lowered[i] matches Some(d) && seq_contains(d, needle) {
            prev.push(cands[i])
        } else {
            prev
        }
    }
}

/// A name binding must match exactly one candidate.
pub open spec fn pick_spec(m: Seq<AffixId>) -> Result<AffixId, CraftSpecError> {
    if m.len() == 1 {
        Ok(m[0])
    } else if m.len() == 0 {
        Err(CraftSpecError::NoBindingMatch())
    } else {
        Err(CraftSpecError::AmbiguousBinding(m.len() as usize))
    }
}

/// The lower-cased descriptions of the candidates (`None` where the affix
/// has no definition).
pub open spec fn lowered_descriptions(cands: Seq<AffixId>, pv: ItemInfoProvider) -> Seq<Option<Seq<char>>> {
    cands.map_values(|id: AffixId| match pv.affix_def(id) {
        Some(d) => Some(lowercase(d.description_template@)),
        None => None,
    })
}

/// How a binding resolves against a slot's candidates: `#123` names an
/// affix id, which must be a candidate; any other text must occur,
/// ignoring case, in the description of exactly one candidate.
pub open spec fn spec_resolve_binding(b: Seq<char>, cands: Seq<AffixId>, pv: ItemInfoProvider) -> Result<AffixId, CraftSpecError> {
    if b.len() > 0 && b[0] == '#' {
        match parse_u16_spec(b.drop_first()) {
            None => Err(CraftSpecError::InvalidIdBinding()),
            Some(raw) => if cands.contains(AffixId(raw)) {
                Ok(AffixId(raw))
            } else {
                Err(CraftSpecError::IdNotEligible(raw))
            },
        }
    } else {
        pick_spec(name_matches(cands, lowered_descriptions(cands, pv), lowercase(b)))
    }
}

/// Pick the single candidate whose lower-cased description contains the
/// (lower-cased) needle; `lowered[i]` belongs to `candidates[i]`.
pub fn pick_binding_match(candidates: &Vec<AffixId>, lowered: &Vec<Option<String>>, needle: &str) -> (r: Result<AffixId, CraftSpecError>)
    requires
        lowered@.len() == candidates@.len(),
    ensures
        r == pick_spec(name_matches(candidates@, lowered_views(lowered@), needle@)),
{
    let ghost lv = lowered_views(lowered@);
    let mut found: Vec<AffixId> = Vec::new();
    let mut i: usize = 0;
    while i < candidates.len()
        invariant
            i <= candidates@.len(),
            lowered@.len() == candidates@.len(),
            lv == lowered_views(lowered@),
            found@ == name_matches(candidates@.take(i as int), lv, needle@),
        decreases candidates.len() - i,
    {
        assert(candidates@.take(i + 1).drop_last() =~= candidates@.take(i as int));
        let hit = match &lowered[i] {
            Some(d) => str_contains(d.as_str(), needle),
            None => false,
        };
        if hit {
            found.push(candidates[i]);
        }
        i += 1;
    }
    assert(candidates@.take(candidates@.len() as int) =~= candidates@);
    if found.len() == 1 {
        Ok(found[0])
    } else if found.len() == 0 {
        Err(CraftSpecError::NoBindingMatch())
    } else {
        Err(CraftSpecError::AmbiguousBinding(found.len()))
    }
}

/// Resolve a `[binding]` against the slot's candidates: `#123` by id,
/// anything else as a case-insensitive substring of the affix description.
/// Must match exactly one candidate.
pub fn resolve_binding(binding: &str, candidates: &Vec<AffixId>, provider: &ItemInfoProvider) -> (r: Result<AffixId, CraftSpecError>)
    ensures
        r == spec_resolve_binding(binding@, candidates@, *provider),
{
    let chars = chars_of(binding);
    if chars.len() > 0 && chars[0] == '#' {
        let id_str = binding.substring_char(1, chars.len());
        assert(id_str@ =~= binding@.drop_first());
        match parse_u16(id_str) {
            None => Err(CraftSpecError::InvalidIdBinding()),
            Some(raw) => {
                let id = AffixId(raw);
                if contains_id(candidates, id) {
                    Ok(id)
                } else {
                    Err(CraftSpecError::IdNotEligible(raw))
                }
            },
        }
    } else {
        let needle = to_lowercase(binding);
        let mut lowered: Vec<Option<String>> = Vec::new();
        let mut i: usize = 0;
        while i < candidates.len()
            invariant
                i <= candidates@.len(),
                lowered@.len() == i,
                lowered_views(lowered@) == lowered_descriptions(candidates@, *provider).take(i as int),
            decreases candidates.len() - i,
        {
            let entry = match provider.lookup_affix_definition(&candidates[i]) {
                Ok(def) => Some(to_lowercase(def.description_template.as_str())),
                Err(_) => None,
            };
            let ghost ev: Option<Seq<char>> = match &entry {
                Some(t) => Some(t@),
                None => None,
            };
            assert(ev == lowered_descriptions(candidates@, *provider)[i as int]);
            let ghost before = lowered@;
            lowered.push(entry);
            assert(lowered_views(lowered@) =~= lowered_descriptions(candidates@, *provider).take(i + 1)) by {
                assert(lowered@ =~= before.push(entry));
                assert(lowered_views(lowered@)[i as int] == ev);
            }
            i += 1;
        }
        assert(lowered_descriptions(candidates@, *provider).take(candidates@.len() as int)
            =~= lowered_descriptions(candidates@, *provider));
        pick_binding_match(candidates, &lowered, needle.as_str())
    }
}

/// Worst (numerically largest) tier among those open at the item level.
pub open spec fn max_reachable_tier(tiers: Seq<(AffixTierLevel, AffixTierLevelMeta)>, ilvl: ItemLevel) -> Option<u8>
    decreases tiers.len(),
{
    if tiers.len() == 0 {
        None
    } else {
        let prev = max_reachable_tier(tiers.drop_last(), ilvl);
        let t = tiers.last();
        if t.1.min_item_level.0 <= ilvl.0 {
            match prev {
                None => Some(t.0.0),
                Some(p) => Some(if t.0.0 > p { t.0.0 } else { p }),
            }
        } else {
            prev
        }
    }
}

pub open spec fn spec_worst_reachable_tier(affix: AffixId, base: BaseItemId, ilvl: ItemLevel, pv: ItemInfoProvider) -> Option<u8> {
    match pv.base_pool(base) {
        None => None,
        Some(pool) => match table_get(pool@, affix) {
            None => None,
            Some(t) => max_reachable_tier(t@, ilvl),
        },
    }
}

/// Worst (numerically largest) reachable tier of an affix in the base pool,
/// used as the "any tier" minimum bound on exact targets.
pub fn worst_reachable_tier(affix: &AffixId, base_id: &BaseItemId, item_level: &ItemLevel, provider: &ItemInfoProvider) -> (r: Option<u8>)
    ensures
        r == spec_worst_reachable_tier(*affix, *base_id, *item_level, *provider),
{
    let pool = match provider.lookup_base_item_mods(base_id) {
        Ok(p) => p,
        Err(_) => return None,
    };
    let t = match table_find(pool, affix) {
        Some(t) => t,
        None => return None,
    };
    let tiers = &pool[t].1;
    let mut best: Option<u8> = None;
    let mut k: usize = 0;
    while k < tiers.len()
        invariant
            k <= tiers@.len(),
            best == max_reachable_tier(tiers@.take(k as int), *item_level),
        decreases tiers.len() - k,
    {
        assert(tiers@.take(k + 1).drop_last() =~= tiers@.take(k as int));
        if tiers[k].1.min_item_level.0 <= item_level.0 {
            let tk = tiers[k].0.0;
            best = match best {
                None => Some(tk),
                Some(p) => Some(if tk > p { tk } else { p }),
            };
        }
        k += 1;
    }
    assert(tiers@.take(tiers@.len() as int) =~= tiers@);
    best
}


/// The tier is open at the item level.
pub open spec fn tier_open(t: (AffixTierLevel, AffixTierLevelMeta), ilvl: ItemLevel) -> bool {
    t.1.min_item_level.0 <= ilvl.0
}

proof fn lemma_max_reachable_tier(tiers: Seq<(AffixTierLevel, AffixTierLevelMeta)>, ilvl: ItemLevel)
    ensures
        match max_reachable_tier(tiers, ilvl) {
            Some(w) => (exists|k: int| 0 <= k < tiers.len() && tier_open(tiers[k], ilvl) && #[trigger] tiers[k].0.0 == w)
                && forall|k: int| 0 <= k < tiers.len() && tier_open(#[trigger] tiers[k], ilvl) ==> tiers[k].0.0 <= w,
            None => forall|k: int| 0 <= k < tiers.len() ==> !tier_open(#[trigger] tiers[k], ilvl),
        },
    decreases tiers.len(),
{
    if tiers.len() > 0 {
        let d = tiers.drop_last();
        lemma_max_reachable_tier(d, ilvl);
        let n = tiers.len() - 1;
        assert forall|k: int| 0 <= k < n implies #[trigger] tiers[k] == d[k] by {}
        match max_reachable_tier(d, ilvl) {
            Some(p) => {
                let k0 = choose|k: int| 0 <= k < d.len() && tier_open(d[k], ilvl) && #[trigger] d[k].0.0 == p;
                assert(tiers[k0] == d[k0]);
            },
            None => {},
        }
    }
}

/// The worst reachable tier of an affix is the numerically largest tier of
/// its tier table in the base pool that is open at the item level: it is
/// one of them, and none is larger; there is none when no tier is open.
pub proof fn law_worst_reachable_tier_is_largest_open(affix: AffixId, base: BaseItemId, ilvl: ItemLevel, pv: ItemInfoProvider)
    ensures
        pv.base_pool(base) matches Some(pool) ==> (table_get(pool@, affix) matches Some(t) ==> match spec_worst_reachable_tier(affix, base, ilvl, pv) {
            Some(w) => (exists|k: int| 0 <= k < t@.len() && tier_open(t@[k], ilvl) && #[trigger] t@[k].0.0 == w)
                && forall|k: int| 0 <= k < t@.len() && tier_open(#[trigger] t@[k], ilvl) ==> t@[k].0.0 <= w,
            None => forall|k: int| 0 <= k < t@.len() ==> !tier_open(#[trigger] t@[k], ilvl),
        }),
{
    if let Some(pool) = pv.base_pool(base) {
        if let Some(t) = table_get(pool@, affix) {
            lemma_max_reachable_tier(t@, ilvl);
        }
    }
}

/// A pinned slot without a tier qualifier wants any tier: its target
/// affix is bounded by Minimum at a tier no better than every tier open at
/// the item level, so each of them satisfies the target.
pub proof fn law_any_tier_slot_accepts_every_open_tier(slot: SlotView, base: BaseItemId, ilvl: ItemLevel, pv: ItemInfoProvider)
    requires
        slot.pinned is Some,
        slot.tier is None,
    ensures
        ({
            let a = slot_specifier(slot, base, ilvl, pv);
            &&& a.affix == slot.pinned->Some_0
            &&& a.fractured == slot.fractured
            &&& a.tier.bounds == AffixTierLevelBoundsEnum::Minimum
            &&& pv.base_pool(base) matches Some(pool) ==> (table_get(pool@, a.affix) matches Some(t) ==>
                forall|k: int| 0 <= k < t@.len() && tier_open(#[trigger] t@[k], ilvl) ==> t@[k].0.0 <= a.tier.tier.0)
        }),
{
    law_worst_reachable_tier_is_largest_open(slot.pinned->Some_0, base, ilvl, pv);
}

/// A pinned slot with a tier qualifier wants that tier: exactly that tier
/// when the qualifier is marked exact (`x`), that tier or better otherwise.
pub proof fn law_tier_qualifier_sets_the_bound(slot: SlotView, base: BaseItemId, ilvl: ItemLevel, pv: ItemInfoProvider)
    requires
        slot.pinned is Some,
        slot.tier is Some,
    ensures
        ({
            let a = slot_specifier(slot, base, ilvl, pv);
            &&& a.affix == slot.pinned->Some_0
            &&& a.fractured == slot.fractured
            &&& a.tier.tier.0 == slot.tier->Some_0.0
            &&& (a.tier.bounds == AffixTierLevelBoundsEnum::Exact <==> slot.tier->Some_0.1)
        }),
{
}

/// One parsed slot of a craft spec.
#[derive(Clone, Debug)]
pub struct CraftSpecSlot {
    /// 0-based position in the spec.
    pub index: u8,
    pub letter: char,
    /// `P`/`S` fix the location; `E`/`A` leave it to the pinned affix.
    pub location: Option<AffixLocationEnum>,
    pub class: AffixClassEnum,
    /// (tier level, exact); `None` accepts any tier.
    pub tier: Option<(u8, bool)>,
    pub fractured: bool,
    pub pinned: Option<AffixId>,
    /// Eligible affix ids for this slot on the base (the pinned affix only,
    /// when pinned).
    pub candidates: Vec<AffixId>,
}

/// Mathematical value of a [`CraftSpecSlot`].
pub struct SlotView {
    pub index: u8,
    pub letter: char,
    pub location: Option<AffixLocationEnum>,
    pub class: AffixClassEnum,
    pub tier: Option<(u8, bool)>,
    pub fractured: bool,
    pub pinned: Option<AffixId>,
    pub candidates: Seq<AffixId>,
}

impl View for CraftSpecSlot {
    type V = SlotView;

    open spec fn view(&self) -> SlotView {
        SlotView {
            index: self.index,
            letter: self.letter,
            location: self.location,
            class: self.class,
            tier: self.tier,
            fractured: self.fractured,
            pinned: self.pinned,
            candidates: self.candidates@,
        }
    }
}

pub open spec fn slot_views(s: Seq<CraftSpecSlot>) -> Seq<SlotView> {
    s.map_values(|x: CraftSpecSlot| x@)
}

/// Parse result: slots, fan-out estimate and (when fully pinned) the exact
/// target snapshot.
#[derive(Clone, Debug)]
pub struct CraftSpecTemplate {
    pub base_id: BaseItemId,
    pub item_level: ItemLevel,
    pub rarity: ItemRarityEnum,
    pub slots: Vec<CraftSpecSlot>,
    /// Product of the candidate counts over all slots (saturating).
    pub estimated_concrete_targets: u128,
    /// Exact target when every slot is pinned; `None` otherwise.
    pub exact_target: Option<ItemSnapshot>,
}

/// Mathematical value of a [`CraftSpecTemplate`].
pub struct TemplateView {
    pub base_id: BaseItemId,
    pub item_level: ItemLevel,
    pub rarity: ItemRarityEnum,
    pub slots: Seq<SlotView>,
    pub estimated_concrete_targets: u128,
    pub exact_target: Option<SnapshotView>,
}

impl View for CraftSpecTemplate {
    type V = TemplateView;

    open spec fn view(&self) -> TemplateView {
        TemplateView {
            base_id: self.base_id,
            item_level: self.item_level,
            rarity: self.rarity,
            slots: slot_views(self.slots@),
            estimated_concrete_targets: self.estimated_concrete_targets,
            exact_target: match self.exact_target {
                Some(t) => Some(t@),
                None => None,
            },
        }
    }
}

/// How one raw slot (at 0-based `index`) becomes a parsed slot: its
/// candidates must be non-empty, and it may be pinned either inline or by
/// the bindings parameter, not both.
pub open spec fn spec_build_slot(
    r: RawSlotView,
    index: int,
    base: BaseItemId,
    ilvl: ItemLevel,
    bindings: Seq<(u8, AffixId)>,
    pv: ItemInfoProvider,
) -> Result<SlotView, CraftSpecError> {
    let (class, loc) = letter_class(r.letter);
    match spec_slot_candidates(pv, class, loc, base, ilvl, r.tier) {
        Err(e) => Err(CraftSpecError::Lookup(e)),
        Ok(c) => if c.len() == 0 {
            Err(CraftSpecError::NoEligibleAffix(index as u8))
        } else {
            let pin: Result<Option<AffixId>, CraftSpecError> = match (r.binding, table_get(bindings, index as u8)) {
                (Some(_), Some(_)) => Err(CraftSpecError::PinnedTwice(index as u8)),
                (Some(b), None) => match spec_resolve_binding(b, c, pv) {
                    Ok(id) => Ok(Some(id)),
                    Err(e) => Err(e),
                },
                (None, Some(id)) => if c.contains(id) {
                    Ok(Some(id))
                } else {
                    Err(CraftSpecError::BoundAffixNotEligible(id, index as u8))
                },
                (None, None) => Ok(None),
            };
            match pin {
                Err(e) => Err(e),
                Ok(p) => Ok(SlotView {
                    index: index as u8,
                    letter: r.letter,
                    location: loc,
                    class,
                    tier: r.tier,
                    fractured: r.fractured,
                    pinned: p,
                    candidates: match p {
                        Some(id) => seq![id],
                        None => c,
                    },
                }),
            }
        },
    }
}

/// All raw slots, in order; the first failing slot decides the error.
pub open spec fn spec_build_slots(
    raw: Seq<RawSlotView>,
    base: BaseItemId,
    ilvl: ItemLevel,
    bindings: Seq<(u8, AffixId)>,
    pv: ItemInfoProvider,
) -> Result<Seq<SlotView>, CraftSpecError>
    decreases raw.len(),
{
    if raw.len() == 0 {
        Ok(Seq::empty())
    } else {
        match spec_build_slots(raw.drop_last(), base, ilvl, bindings, pv) {
            Err(e) => Err(e),
            Ok(prev) => match spec_build_slot(raw.last(), raw.len() - 1, base, ilvl, bindings, pv) {
                Err(e) => Err(e),
                Ok(s) => Ok(prev.push(s)),
            },
        }
    }
}

/// Number of slots that fix this location.
pub open spec fn count_location(slots: Seq<SlotView>, loc: AffixLocationEnum) -> nat
    decreases slots.len(),
{
    if slots.len() == 0 {
        0
    } else {
        count_location(slots.drop_last(), loc) + if slots.last().location == Some(loc) { 1nat } else { 0nat }
    }
}

/// Product of the candidate counts.
pub open spec fn candidate_product(slots: Seq<SlotView>) -> nat
    decreases slots.len(),
{
    if slots.len() == 0 {
        1
    } else {
        candidate_product(slots.drop_last()) * slots.last().candidates.len()
    }
}

/// The product of the candidate counts, saturated at `u128::MAX`.
pub open spec fn fanout(slots: Seq<SlotView>) -> u128 {
    if candidate_product(slots) > u128::MAX {
        u128::MAX
    } else {
        candidate_product(slots) as u128
    }
}

pub open spec fn all_pinned(slots: Seq<SlotView>) -> bool {
    forall|i: int| 0 <= i < slots.len() ==> (#[trigger] slots[i]).pinned is Some
}

/// The wanted affix of a pinned slot: its tier qualifier, or the worst
/// reachable tier (tier 1 when none is known) as a minimum.
pub open spec fn slot_specifier(slot: SlotView, base: BaseItemId, ilvl: ItemLevel, pv: ItemInfoProvider) -> AffixSpecifier {
    let affix = slot.pinned.unwrap();
    let (t, bounds) = match slot.tier {
        Some((t, exact)) => (t, if exact { AffixTierLevelBoundsEnum::Exact } else { AffixTierLevelBoundsEnum::Minimum }),
        None => (
            match spec_worst_reachable_tier(affix, base, ilvl, pv) {
                Some(w) => w,
                None => 1u8,
            },
            AffixTierLevelBoundsEnum::Minimum,
        ),
    };
    AffixSpecifier { affix, fractured: slot.fractured, tier: AffixTierConstraints { tier: AffixTierLevel(t), bounds } }
}

/// The set (first occurrences, in slot order) of the wanted affixes.
pub open spec fn target_affixes(slots: Seq<SlotView>, base: BaseItemId, ilvl: ItemLevel, pv: ItemInfoProvider) -> Seq<AffixSpecifier>
    decreases slots.len(),
{
    if slots.len() == 0 {
        Seq::empty()
    } else {
        let prev = target_affixes(slots.drop_last(), base, ilvl, pv);
        let a = slot_specifier(slots.last(), base, ilvl, pv);
        if prev.contains(a) {
            prev
        } else {
            prev.push(a)
        }
    }
}

/// What parsing a craft spec against a base item yields.
pub open spec fn spec_parse_craft_spec(
    spec: Seq<char>,
    base: BaseItemId,
    ilvl: ItemLevel,
    bindings: Seq<(u8, AffixId)>,
    pv: ItemInfoProvider,
) -> Result<TemplateView, CraftSpecError> {
    match lex_spec(spec) {
        Err(e) => Err(e),
        Ok(raw) => match pv.base_group_of(base) {
            None => Err(CraftSpecError::Lookup(CraftPathError::BaseItemWithoutBaseGroup(base))),
            Some(g) => match pv.group_def(g) {
                None => Err(CraftSpecError::Lookup(CraftPathError::BaseGroupWithoutDefinition(g))),
                Some(gd) => if raw.len() > gd.max_affix {
                    Err(CraftSpecError::TooManySlots(raw.len() as usize, gd.max_affix))
                } else {
                    match spec_build_slots(raw, base, ilvl, bindings, pv) {
                        Err(e) => Err(e),
                        Ok(slots) => {
                            let cap = (gd.max_affix / 2) as u8;
                            let prefixes = count_location(slots, AffixLocationEnum::Prefix);
                            let suffixes = count_location(slots, AffixLocationEnum::Suffix);
                            if prefixes > cap {
                                Err(CraftSpecError::TooManyPrefixes(prefixes as usize, cap))
                            } else if suffixes > cap {
                                Err(CraftSpecError::TooManySuffixes(suffixes as usize, cap))
                            } else {
                                let rarity = if gd.is_rare { ItemRarityEnum::Rare } else { ItemRarityEnum::Magic };
                                Ok(TemplateView {
                                    base_id: base,
                                    item_level: ilvl,
                                    rarity,
                                    slots,
                                    estimated_concrete_targets: fanout(slots),
                                    exact_target: if all_pinned(slots) {
                                        Some(SnapshotView {
                                            item_level: ilvl,
                                            rarity,
                                            base_id: base,
                                            affixes: target_affixes(slots, base, ilvl, pv),
                                            corrupted: false,
                                            allowed_sockets: 0,
                                            sockets: Seq::empty(),
                                        })
                                    } else {
                                        None
                                    },
                                })
                            }
                        },
                    }
                },
            },
        },
    }
}


/// Class and fixed location of a slot letter.
fn letter_class_exec(letter: char) -> (r: (AffixClassEnum, Option<AffixLocationEnum>))
    ensures
        r == letter_class(letter),
{
    if letter == 'P' {
        (AffixClassEnum::Base, Some(AffixLocationEnum::Prefix))
    } else if letter == 'S' {
        (AffixClassEnum::Base, Some(AffixLocationEnum::Suffix))
    } else if letter == 'E' {
        (AffixClassEnum::Essence, None)
    } else {
        (AffixClassEnum::Desecrated, None)
    }
}

/// Build one slot (0-based `index`) from its raw form.
pub fn build_slot(
    raw: &RawSlot,
    index: usize,
    base_id: &BaseItemId,
    item_level: &ItemLevel,
    bindings: &Vec<(u8, AffixId)>,
    provider: &ItemInfoProvider,
) -> (r: Result<CraftSpecSlot, CraftSpecError>)
    requires
        index < 256,
    ensures
        match r {
            Ok(s) => spec_build_slot(raw@, index as int, *base_id, *item_level, bindings@, *provider)
                == Ok::<SlotView, CraftSpecError>(s@),
            Err(e) => spec_build_slot(raw@, index as int, *base_id, *item_level, bindings@, *provider)
                == Err::<SlotView, CraftSpecError>(e),
        },
{
    let key = index as u8;
    let (class, location) = letter_class_exec(raw.letter);
    let candidates = match slot_candidates(&class, &location, base_id, item_level, &raw.tier, provider) {
        Ok(c) => c,
        Err(e) => return Err(CraftSpecError::Lookup(e)),
    };
    if candidates.len() == 0 {
        return Err(CraftSpecError::NoEligibleAffix(key));
    }
    let bound: Option<AffixId> = match table_find(bindings, &key) {
        Some(j) => Some(bindings[j].1),
        None => None,
    };
    let pinned: Option<AffixId> = match (&raw.binding, bound) {
        (Some(_), Some(_)) => {
            return Err(CraftSpecError::PinnedTwice(key));
        },
        (Some(b), None) => match resolve_binding(b.as_str(), &candidates, provider) {
            Ok(id) => Some(id),
            Err(e) => {
                return Err(e);
            },
        },
        (None, Some(id)) => {
            if contains_id(&candidates, id) {
                Some(id)
            } else {
                return Err(CraftSpecError::BoundAffixNotEligible(id, key));
            }
        },
        (None, None) => None,
    };
    let cands = match pinned {
        Some(id) => {
            let mut v: Vec<AffixId> = Vec::new();
            v.push(id);
            assert(v@ =~= seq![id]);
            v
        },
        None => candidates,
    };
    Ok(CraftSpecSlot {
        index: key,
        letter: raw.letter,
        location,
        class,
        tier: raw.tier,
        fractured: raw.fractured,
        pinned,
        candidates: cands,
    })
}

/// Once a prefix of the raw slots fails, all of them fail the same way.
pub proof fn lemma_build_slots_err(
    raw: Seq<RawSlotView>,
    base: BaseItemId,
    ilvl: ItemLevel,
    bindings: Seq<(u8, AffixId)>,
    pv: ItemInfoProvider,
    n: int,
)
    requires
        0 <= n <= raw.len(),
        spec_build_slots(raw.take(n), base, ilvl, bindings, pv) is Err,
    ensures
        spec_build_slots(raw, base, ilvl, bindings, pv) == spec_build_slots(raw.take(n), base, ilvl, bindings, pv),
    decreases raw.len() - n,
{
    if n < raw.len() {
        assert(raw.take(n + 1).drop_last() =~= raw.take(n));
        lemma_build_slots_err(raw, base, ilvl, bindings, pv, n + 1);
    } else {
        assert(raw.take(n) =~= raw);
    }
}

/// Number of slots that fix the location.
fn count_slots_at(slots: &Vec<CraftSpecSlot>, loc: AffixLocationEnum) -> (r: usize)
    ensures
        r == count_location(slot_views(slots@), loc),
{
    let ghost sv = slot_views(slots@);
    let mut n: usize = 0;
    let mut i: usize = 0;
    while i < slots.len()
        invariant
            i <= slots@.len(),
            sv == slot_views(slots@),
            n <= i,
            n == count_location(sv.take(i as int), loc),
        decreases slots.len() - i,
    {
        assert(sv.take(i + 1).drop_last() =~= sv.take(i as int));
        if slots[i].location == Some(loc) {
            n += 1;
        }
        i += 1;
    }
    assert(sv.take(slots@.len() as int) =~= sv);
    n
}

/// Saturating multiplication agrees with saturating the exact product.
proof fn lemma_saturating_step(p: nat, k: nat)
    ensures
        ({
            let a = if p > u128::MAX { u128::MAX as nat } else { p };
            if a * k > u128::MAX { u128::MAX as nat } else { a * k }
        }) == (if p * k > u128::MAX { u128::MAX as nat } else { p * k }),
{
    if k == 0 {
        assert(p * k == 0) by (nonlinear_arith) requires k == 0;
        assert((u128::MAX as nat) * k == 0) by (nonlinear_arith) requires k == 0;
    } else if p > u128::MAX {
        assert(p * k >= p) by (nonlinear_arith) requires k >= 1;
        assert((u128::MAX as nat) * k >= u128::MAX) by (nonlinear_arith) requires k >= 1;
    }
}

/// The saturating product of the candidate counts.
fn fanout_exec(slots: &Vec<CraftSpecSlot>) -> (r: u128)
    ensures
        r == fanout(slot_views(slots@)),
{
    let ghost sv = slot_views(slots@);
    let mut acc: u128 = 1;
    let mut i: usize = 0;
    while i < slots.len()
        invariant
            i <= slots@.len(),
            sv == slot_views(slots@),
            acc == fanout(sv.take(i as int)),
        decreases slots.len() - i,
    {
        assert(sv.take(i + 1).drop_last() =~= sv.take(i as int));
        let k = slots[i].candidates.len() as u128;
        proof {
            lemma_saturating_step(candidate_product(sv.take(i as int)), k as nat);
        }
        acc = match acc.checked_mul(k) {
            Some(v) => v,
            None => u128::MAX,
        };
        i += 1;
    }
    assert(sv.take(slots@.len() as int) =~= sv);
    acc
}

/// Whether every slot is pinned.
fn all_pinned_exec(slots: &Vec<CraftSpecSlot>) -> (r: bool)
    ensures
        r == all_pinned(slot_views(slots@)),
{
    let mut i: usize = 0;
    while i < slots.len()
        invariant
            i <= slots@.len(),
            forall|j: int| 0 <= j < i ==> (#[trigger] slot_views(slots@)[j]).pinned is Some,
        decreases slots.len() - i,
    {
        if slots[i].pinned.is_none() {
            assert(slot_views(slots@)[i as int].pinned is None);
            return false;
        }
        i += 1;
    }
    true
}

/// The set of wanted affixes of a fully pinned spec.
fn target_affixes_exec(
    slots: &Vec<CraftSpecSlot>,
    base_id: &BaseItemId,
    item_level: &ItemLevel,
    provider: &ItemInfoProvider,
) -> (r: Vec<AffixSpecifier>)
    requires
        all_pinned(slot_views(slots@)),
    ensures
        r@ == target_affixes(slot_views(slots@), *base_id, *item_level, *provider),
{
    let ghost sv = slot_views(slots@);
    let mut out: Vec<AffixSpecifier> = Vec::new();
    let mut i: usize = 0;
    while i < slots.len()
        invariant
            i <= slots@.len(),
            sv == slot_views(slots@),
            all_pinned(sv),
            out@ == target_affixes(sv.take(i as int), *base_id, *item_level, *provider),
        decreases slots.len() - i,
    {
        assert(sv.take(i + 1).drop_last() =~= sv.take(i as int));
        assert(sv[i as int].pinned is Some);
        let slot = &slots[i];
        let affix = slot.pinned.unwrap();
        let (t, bounds) = match slot.tier {
            Some((t, exact)) => (t, if exact { AffixTierLevelBoundsEnum::Exact } else { AffixTierLevelBoundsEnum::Minimum }),
            None => (
                match worst_reachable_tier(&affix, base_id, item_level, provider) {
                    Some(w) => w,
                    None => 1u8,
                },
                AffixTierLevelBoundsEnum::Minimum,
            ),
        };
        let spec_item = AffixSpecifier {
            affix,
            fractured: slot.fractured,
            tier: AffixTierConstraints { tier: AffixTierLevel(t), bounds },
        };
        assert(spec_item == slot_specifier(sv[i as int], *base_id, *item_level, *provider));
        insert_specifier(&mut out, spec_item);
        i += 1;
    }
    assert(sv.take(slots@.len() as int) =~= sv);
    out
}

/// Parse a craft spec against a base item. `bindings` pins slots by
/// 0-based index in addition to inline `[...]` bindings.
pub fn parse_craft_spec(
    spec: &str,
    base_id: BaseItemId,
    item_level: ItemLevel,
    bindings: &Vec<(u8, AffixId)>,
    provider: &ItemInfoProvider,
) -> (r: Result<CraftSpecTemplate, CraftSpecError>)
    ensures
        match r {
            Ok(t) => spec_parse_craft_spec(spec@, base_id, item_level, bindings@, *provider)
                == Ok::<TemplateView, CraftSpecError>(t@),
            Err(e) => spec_parse_craft_spec(spec@, base_id, item_level, bindings@, *provider)
                == Err::<TemplateView, CraftSpecError>(e),
        },
{
    let raw = match lex(spec) {
        Ok(v) => v,
        Err(e) => return Err(e),
    };
    let ghost rv = raw_views(raw@);
    let group_id = match provider.lookup_base_group(&base_id) {
        Ok(g) => g,
        Err(e) => return Err(CraftSpecError::Lookup(e)),
    };
    let group = match provider.lookup_base_group_definition(&group_id) {
        Ok(g) => g,
        Err(e) => return Err(CraftSpecError::Lookup(e)),
    };
    let side_cap = group.max_affix / 2;
    if raw.len() > group.max_affix as usize {
        return Err(CraftSpecError::TooManySlots(raw.len(), group.max_affix));
    }
    let mut slots: Vec<CraftSpecSlot> = Vec::new();
    let mut index: usize = 0;
    assert(rv.take(0) =~= Seq::<RawSlotView>::empty());
    assert(slot_views(slots@) =~= Seq::<SlotView>::empty());
    while index < raw.len()
        invariant
            index <= raw@.len(),
            raw@.len() <= group.max_affix,
            rv == raw_views(raw@),
            lex_spec(spec@) == Ok::<Seq<RawSlotView>, CraftSpecError>(rv),
            provider.base_group_of(base_id) == Some(group_id),
            provider.group_def(group_id) == Some(*group),
            spec_build_slots(rv.take(index as int), base_id, item_level, bindings@, *provider)
                == Ok::<Seq<SlotView>, CraftSpecError>(slot_views(slots@)),
        decreases raw.len() - index,
    {
        assert(rv.take(index + 1).drop_last() =~= rv.take(index as int));
        assert(rv.take(index + 1).last() == raw@[index as int]@);
        match build_slot(&raw[index], index, &base_id, &item_level, bindings, provider) {
            Err(e) => {
                proof {
                    lemma_build_slots_err(rv, base_id, item_level, bindings@, *provider, index + 1);
                }
                return Err(e);
            },
            Ok(slot) => {
                let ghost before = slots@;
                slots.push(slot);
                assert(slot_views(slots@) =~= slot_views(before).push(slot@));
            },
        }
        index += 1;
    }
    assert(rv.take(raw@.len() as int) =~= rv);
    let prefixes = count_slots_at(&slots, AffixLocationEnum::Prefix);
    let suffixes = count_slots_at(&slots, AffixLocationEnum::Suffix);
    if prefixes > side_cap as usize {
        return Err(CraftSpecError::TooManyPrefixes(prefixes, side_cap));
    }
    if suffixes > side_cap as usize {
        return Err(CraftSpecError::TooManySuffixes(suffixes, side_cap));
    }
    let estimated_concrete_targets = fanout_exec(&slots);
    let rarity = if group.is_rare { ItemRarityEnum::Rare } else { ItemRarityEnum::Magic };
    let exact_target = if all_pinned_exec(&slots) {
        let affixes = target_affixes_exec(&slots, &base_id, &item_level, provider);
        Some(ItemSnapshot {
            item_level,
            rarity,
            base_id,
            affixes,
            corrupted: false,
            allowed_sockets: 0,
            sockets: Vec::new(),
        })
    } else {
        None
    };
    Ok(CraftSpecTemplate { base_id, item_level, rarity, slots, estimated_concrete_targets, exact_target })
}

} // verus!
