//! Mount options: the file-system information kept per mount and the parser
//! of the comma-separated option text.

use vstd::prelude::*;
use vstd::slice::slice_subrange;

verus! {

/// Permission bits of the root directory when no option sets them: the
/// number 775 written in decimal (`0o1407`).
pub const RAMFS_DEFAULT_MODE: u16 = 775;

/// The options of one mount.
#[derive(Clone, Copy, Debug, PartialEq, Eq, Structural)]
pub struct RamfsMountOpts {
    pub mode: u16,
    pub debug: bool,
}

/// What the file system keeps per mounted superblock.
#[derive(Clone, Copy, Debug, PartialEq, Eq, Structural)]
pub struct RamfsFsInfo {
    pub mount_opts: RamfsMountOpts,
}

impl RamfsFsInfo {
    /// The information a fresh mount starts from: the default root mode and
    /// debugging off.
    pub fn new() -> (r: Self)
        ensures
            r.mount_opts.mode == RAMFS_DEFAULT_MODE,
            !r.mount_opts.debug,
    {
        RamfsFsInfo { mount_opts: RamfsMountOpts { mode: RAMFS_DEFAULT_MODE, debug: false } }
    }
}

// ---------------------------------------------------------------- numbers

/// The characters a mode value may consist of: `0` to `8`.
pub open spec fn is_mode_digit(c: char) -> bool {
    '0' <= c && c <= '8'
}

pub open spec fn all_mode_digits(s: Seq<char>) -> bool {
    forall|i: int| 0 <= i < s.len() ==> #[trigger] is_mode_digit(s[i])
}

pub open spec fn digit_value(c: char) -> nat {
    (c as nat - '0' as nat) as nat
}

/// The number that the digits `s` spell in base ten.
pub open spec fn decimal_value(s: Seq<char>) -> nat
    decreases s.len(),
{
    if s.len() == 0 {
        0
    } else {
        decimal_value(s.drop_last()) * 10 + digit_value(s.last())
    }
}

/// When reading `s` as a mode succeeds without fault: whenever `s` consists
/// of mode digits only, it is not empty and its value fits in 16 bits.
pub open spec fn mode_text_readable(s: Seq<char>) -> bool {
    all_mode_digits(s) ==> (s.len() > 0 && decimal_value(s) <= u16::MAX)
}

/// The value of `s` read as a mode: `None` unless every character is a mode
/// digit; the digits are read in base ten.
pub open spec fn mode_of_text(s: Seq<char>) -> Option<u16> {
    if all_mode_digits(s) {
        Some(decimal_value(s) as u16)
    } else {
        None
    }
}

proof fn lemma_decimal_value_prefix(s: Seq<char>, i: int)
    requires
        0 <= i <= s.len(),
        all_mode_digits(s),
    ensures
        decimal_value(s.take(i)) <= decimal_value(s),
    decreases s.len() - i,
{
    if i < s.len() {
        lemma_decimal_value_prefix(s, i + 1);
        assert(s.take(i + 1).drop_last() =~= s.take(i));
    } else {
        assert(s.take(i) =~= s);
    }
}

/// Reads the characters `s` as a mode (see [`mode_of_text`]).
pub fn parse_mode_chars(s: &[char]) -> (r: Option<u16>)
    requires
        mode_text_readable(s@),
    ensures
        r == mode_of_text(s@),
{
    let n = s.len();
    let mut i: usize = 0;
    while i < n
        invariant
            n == s@.len(),
            0 <= i <= n,
            forall|k: int| 0 <= k < i ==> #[trigger] is_mode_digit(s@[k]),
        decreases n - i,
    {
        let c = s[i];
        if !('0' <= c && c <= '8') {
            assert(!is_mode_digit(s@[i as int]));
            return None;
        }
        i = i + 1;
    }
    assert(all_mode_digits(s@));
    let mut value: u16 = 0;
    let mut j: usize = 0;
    while j < n
        invariant
            n == s@.len(),
            0 <= j <= n,
            all_mode_digits(s@),
            decimal_value(s@) <= u16::MAX,
            value as nat == decimal_value(s@.take(j as int)),
        decreases n - j,
    {
        let c = s[j];
        assert(is_mode_digit(s@[j as int]));
        proof {
            lemma_decimal_value_prefix(s@, j + 1);
            assert(s@.take(j + 1).drop_last() =~= s@.take(j as int));
        }
        let d: u16 = (c as u32 - '0' as u32) as u16;
        value = value * 10 + d;
        j = j + 1;
    }
    assert(s@.take(n as int) =~= s@);
    Some(value)
}

/// The characters of `data`, in order.
pub fn text_chars(data: &str) -> (r: Vec<char>)
    ensures
        r@ == data@,
{
    let mut out: Vec<char> = Vec::new();
    for c in it: data.chars()
        invariant
            out@ == it.seq().take(it.index() as int),
    {
        out.push(c);
    }
    out
}

/// Reads `data` as a mode: `None` unless it consists of the digits `0` to `8`
/// only; the digits are read in base ten.
pub fn parse_octal(data: &str) -> (r: Option<u16>)
    requires
        mode_text_readable(data@),
    ensures
        r == mode_of_text(data@),
{
    let chars = text_chars(data);
    parse_mode_chars(chars.as_slice())
}


// ---------------------------------------------------------------- options

/// The pieces of `s` between commas, empty pieces included: one more piece
/// than there are commas.
pub open spec fn split_commas(s: Seq<char>) -> Seq<Seq<char>>
    decreases s.len(),
{
    if s.len() == 0 {
        seq![Seq::empty()]
    } else {
        let p = split_commas(s.drop_last());
        if s.last() == ',' {
            p.push(Seq::empty())
        } else {
            p.update(p.len() - 1, p.last().push(s.last()))
        }
    }
}

/// The options written in `s`: its comma-separated pieces, where an empty
/// last piece (text ending in a comma, or no text) is no option.
pub open spec fn option_pieces(s: Seq<char>) -> Seq<Seq<char>> {
    let p = split_commas(s);
    if p.last().len() == 0 {
        p.drop_last()
    } else {
        p
    }
}

/// The option that switches debugging on.
pub open spec fn debug_word() -> Seq<char> {
    seq!['d', 'e', 'b', 'u', 'g']
}

/// The start of an option that sets the root mode.
pub open spec fn mode_prefix() -> Seq<char> {
    seq!['m', 'o', 'd', 'e', '=']
}

pub open spec fn starts_with_mode(p: Seq<char>) -> bool {
    p.len() >= 5 && p.take(5) == mode_prefix()
}

/// The text a mode option hands to the mode reader: the option from its
/// first `=` on, the `=` itself included.
pub open spec fn mode_value(p: Seq<char>) -> Seq<char> {
    p.skip(4)
}

/// An option is taken without fault unless it is a mode option whose value
/// does not read as a mode.
pub open spec fn option_acceptable(p: Seq<char>) -> bool {
    starts_with_mode(p) ==> (mode_text_readable(mode_value(p)) && mode_of_text(
        mode_value(p),
    ) is Some)
}

pub open spec fn options_acceptable(s: Seq<char>) -> bool {
    forall|k: int|
        0 <= k < option_pieces(s).len() ==> #[trigger] option_acceptable(option_pieces(s)[k])
}

/// The effect of one option: a mode option sets the mode, `debug` switches
/// debugging on, anything else changes nothing.
pub open spec fn apply_option(o: RamfsMountOpts, p: Seq<char>) -> RamfsMountOpts {
    if starts_with_mode(p) {
        RamfsMountOpts { mode: mode_of_text(mode_value(p)).unwrap(), ..o }
    } else if p == debug_word() {
        RamfsMountOpts { debug: true, ..o }
    } else {
        o
    }
}

/// The effect of the options `ps`, taken in order.
pub open spec fn apply_options(o: RamfsMountOpts, ps: Seq<Seq<char>>) -> RamfsMountOpts
    decreases ps.len(),
{
    if ps.len() == 0 {
        o
    } else {
        apply_option(apply_options(o, ps.drop_last()), ps.last())
    }
}

proof fn lemma_split_commas_nonempty(s: Seq<char>)
    ensures
        split_commas(s).len() >= 1,
    decreases s.len(),
{
    if s.len() > 0 {
        lemma_split_commas_nonempty(s.drop_last());
    }
}

/// The pieces of a prefix of `s`, all but the last, are pieces of `s`.
proof fn lemma_split_commas_prefix(s: Seq<char>, i: int)
    requires
        0 <= i <= s.len(),
    ensures
        split_commas(s.take(i)).len() <= split_commas(s).len(),
        forall|k: int|
            0 <= k < split_commas(s.take(i)).len() - 1 ==> #[trigger] split_commas(s.take(i))[k]
                == split_commas(s)[k],
    decreases s.len(),
{
    if i == s.len() {
        assert(s.take(i) =~= s);
    } else {
        let t = s.drop_last();
        lemma_split_commas_prefix(t, i);
        assert(t.take(i) =~= s.take(i));
        lemma_split_commas_nonempty(t);
    }
}

/// A mode option never reads as a mode: its value starts with the `=`.
pub proof fn lemma_mode_option_never_reads(p: Seq<char>)
    requires
        starts_with_mode(p),
    ensures
        mode_of_text(mode_value(p)) is None,
{
    assert(p.take(5)[4] == '=');
    assert(mode_value(p)[0] == '=');
    assert(!is_mode_digit(mode_value(p)[0]));
}

/// Without mode options, a list of options keeps the mode and switches
/// debugging on exactly when one of them is `debug`.
pub proof fn lemma_apply_options_without_mode(o: RamfsMountOpts, ps: Seq<Seq<char>>)
    requires
        forall|k: int| 0 <= k < ps.len() ==> !#[trigger] starts_with_mode(ps[k]),
    ensures
        apply_options(o, ps).mode == o.mode,
        apply_options(o, ps).debug == (o.debug || ps.contains(debug_word())),
    decreases ps.len(),
{
    if ps.len() > 0 {
        let q = ps.drop_last();
        assert forall|k: int| 0 <= k < q.len() implies !#[trigger] starts_with_mode(q[k]) by {
            assert(q[k] == ps[k]);
        }
        lemma_apply_options_without_mode(o, q);
        assert(!starts_with_mode(ps[ps.len() - 1]));
        if ps.contains(debug_word()) {
            let k = choose|k: int| 0 <= k < ps.len() && ps[k] == debug_word();
            if k < ps.len() - 1 {
                assert(q[k] == debug_word());
            }
        }
        if q.contains(debug_word()) {
            let k = choose|k: int| 0 <= k < q.len() && q[k] == debug_word();
            assert(ps[k] == debug_word());
        }
    }
}

/// Mode options are the ones that cannot be taken: text is acceptable exactly
/// when none of its options starts with `mode=`.
pub proof fn lemma_acceptable_means_no_mode_option(s: Seq<char>)
    ensures
        options_acceptable(s) <==> forall|k: int|
            0 <= k < option_pieces(s).len() ==> !#[trigger] starts_with_mode(option_pieces(s)[k]),
{
    if options_acceptable(s) {
        assert forall|k: int| 0 <= k < option_pieces(s).len() implies !#[trigger] starts_with_mode(
            option_pieces(s)[k],
        ) by {
            assert(option_acceptable(option_pieces(s)[k]));
            if starts_with_mode(option_pieces(s)[k]) {
                lemma_mode_option_never_reads(option_pieces(s)[k]);
            }
        }
    }
}

fn is_debug_option(p: &Vec<char>) -> (r: bool)
    ensures
        r == (p@ == debug_word()),
{
    if p.len() != 5 {
        return false;
    }
    let r = p[0] == 'd' && p[1] == 'e' && p[2] == 'b' && p[3] == 'u' && p[4] == 'g';
    if r {
        assert(p@ =~= debug_word());
    }
    r
}

fn is_mode_option(p: &Vec<char>) -> (r: bool)
    ensures
        r == starts_with_mode(p@),
{
    if p.len() < 5 {
        return false;
    }
    let r = p[0] == 'm' && p[1] == 'o' && p[2] == 'd' && p[3] == 'e' && p[4] == '=';
    if r {
        assert(p@.take(5) =~= mode_prefix());
    } else {
        assert(p@.take(5)[0] == p@[0] && p@.take(5)[1] == p@[1] && p@.take(5)[2] == p@[2]
            && p@.take(5)[3] == p@[3] && p@.take(5)[4] == p@[4]);
    }
    r
}

/// The index of the first `=` in `p`, which holds one.
fn find_equals(p: &Vec<char>) -> (r: usize)
    requires
        exists|k: int| 0 <= k < p@.len() && p@[k] == '=',
    ensures
        r < p@.len(),
        p@[r as int] == '=',
        forall|k: int| 0 <= k < r ==> p@[k] != '=',
{
    let mut i: usize = 0;
    while i < p.len()
        invariant
            0 <= i <= p@.len(),
            forall|k: int| 0 <= k < i ==> p@[k] != '=',
            exists|k: int| 0 <= k < p@.len() && p@[k] == '=',
        decreases p@.len() - i,
    {
        if p[i] == '=' {
            return i;
        }
        i = i + 1;
    }
    i
}

/// Takes one option into `opts`.
fn apply_mount_option(opts: &mut RamfsMountOpts, piece: &Vec<char>)
    requires
        option_acceptable(piece@),
    ensures
        *final(opts) == apply_option(*old(opts), piece@),
{
    if is_mode_option(piece) {
        assert(piece@[4] == piece@.take(5)[4]);
        let eq = find_equals(piece);
        assert(eq == 4) by {
            assert(piece@[0] == piece@.take(5)[0]);
            assert(piece@[1] == piece@.take(5)[1]);
            assert(piece@[2] == piece@.take(5)[2]);
            assert(piece@[3] == piece@.take(5)[3]);
        }
        let value = slice_subrange(piece.as_slice(), eq, piece.len());
        assert(value@ =~= mode_value(piece@));
        match parse_mode_chars(value) {
            Some(mode) => {
                opts.mode = mode;
            },
            None => {
                // Cannot happen: the value of an acceptable option reads.
            },
        }
    } else if is_debug_option(piece) {
        opts.debug = true;
    }
}

/// Takes the comma-separated mount options `data` into `opts`, in order:
/// `debug` switches debugging on, `mode=...` sets the root mode, anything else
/// is ignored.
///
/// A mode option hands its value to the mode reader from the `=` on, so it
/// never reads (see [`lemma_mode_option_never_reads`]); the `requires`
/// leaves such text out, and `ensures` states that the mode stays.
pub fn ramfs_parse_options(data: &str, opts: &mut RamfsMountOpts)
    requires
        options_acceptable(data@),
    ensures
        *final(opts) == apply_options(*old(opts), option_pieces(data@)),
        final(opts).mode == old(opts).mode,
        final(opts).debug == (old(opts).debug || option_pieces(data@).contains(debug_word())),
{
    let chars = text_chars(data);
    let ghost s = chars@;
    let ghost init = *opts;
    let n = chars.len();
    let mut cur: Vec<char> = Vec::new();
    let mut i: usize = 0;
    proof {
        assert(s.take(0) =~= Seq::<char>::empty());
        assert(split_commas(s.take(0)) =~= seq![Seq::<char>::empty()]);
    }
    while i < n
        invariant
            s == chars@,
            s == data@,
            n == s.len(),
            0 <= i <= n,
            options_acceptable(s),
            split_commas(s.take(i as int)).len() >= 1,
            cur@ == split_commas(s.take(i as int)).last(),
            *opts == apply_options(init, split_commas(s.take(i as int)).drop_last()),
        decreases n - i,
    {
        let c = chars[i];
        let ghost p = split_commas(s.take(i as int));
        proof {
            assert(s.take(i + 1).drop_last() =~= s.take(i as int));
            assert(s.take(i + 1).last() == c);
        }
        if c == ',' {
            proof {
                let q = split_commas(s.take(i + 1));
                assert(q =~= p.push(Seq::empty()));
                lemma_split_commas_prefix(s, i + 1);
                lemma_split_commas_nonempty(s);
                let k = p.len() - 1;
                assert(q[k] == split_commas(s)[k]);
                assert(option_pieces(s)[k] == split_commas(s)[k]);
                assert(option_acceptable(option_pieces(s)[k]));
                assert(q.drop_last() =~= p);
            }
            apply_mount_option(opts, &cur);
            cur = Vec::new();
        } else {
            cur.push(c);
            proof {
                let q = split_commas(s.take(i + 1));
                assert(q =~= p.update(p.len() - 1, p.last().push(c)));
                assert(q.drop_last() =~= p.drop_last());
            }
        }
        i = i + 1;
    }
    proof {
        assert(s.take(n as int) =~= s);
    }
    if cur.len() > 0 {
        proof {
            let p = split_commas(s);
            assert(option_pieces(s) == p);
            assert(option_acceptable(option_pieces(s)[p.len() - 1]));
        }
        apply_mount_option(opts, &cur);
    }
    proof {
        lemma_acceptable_means_no_mode_option(s);
        lemma_apply_options_without_mode(init, option_pieces(s));
    }
}

/// Whether the mount options `data` can all be taken without fault (see
/// [`options_acceptable`]): none of them may start with `mode=`.
pub fn mount_options_acceptable(data: &str) -> (r: bool)
    ensures
        r == options_acceptable(data@),
{
    let chars = text_chars(data);
    let ghost s = chars@;
    let n = chars.len();
    let mut cur: Vec<char> = Vec::new();
    let mut i: usize = 0;
    proof {
        lemma_acceptable_means_no_mode_option(s);
        lemma_split_commas_nonempty(s);
        assert(s.take(0) =~= Seq::<char>::empty());
        assert(split_commas(s.take(0)) =~= seq![Seq::<char>::empty()]);
    }
    while i < n
        invariant
            s == chars@,
            s == data@,
            n == s.len(),
            0 <= i <= n,
            split_commas(s).len() >= 1,
            split_commas(s.take(i as int)).len() >= 1,
            cur@ == split_commas(s.take(i as int)).last(),
            forall|k: int|
                0 <= k < split_commas(s.take(i as int)).len() - 1 ==> !#[trigger] starts_with_mode(
                    split_commas(s.take(i as int))[k],
                ),
        decreases n - i,
    {
        let c = chars[i];
        let ghost p = split_commas(s.take(i as int));
        proof {
            assert(s.take(i + 1).drop_last() =~= s.take(i as int));
            assert(s.take(i + 1).last() == c);
        }
        if c == ',' {
            let ghost q = split_commas(s.take(i + 1));
            proof {
                assert(q =~= p.push(Seq::empty()));
                lemma_split_commas_prefix(s, i + 1);
                let k = p.len() - 1;
                assert(q[k] == split_commas(s)[k]);
                assert(option_pieces(s)[k] == split_commas(s)[k]);
            }
            if is_mode_option(&cur) {
                proof {
                    let k = p.len() - 1;
                    assert(starts_with_mode(option_pieces(s)[k]));
                    lemma_acceptable_means_no_mode_option(s);
                }
                return false;
            }
            cur = Vec::new();
            proof {
                assert forall|k: int| 0 <= k < q.len() - 1 implies !#[trigger] starts_with_mode(
                    q[k],
                ) by {
                    assert(q[k] == p[k] || k == p.len() - 1);
                }
            }
        } else {
            cur.push(c);
            proof {
                let q = split_commas(s.take(i + 1));
                assert(q =~= p.update(p.len() - 1, p.last().push(c)));
                assert forall|k: int| 0 <= k < q.len() - 1 implies !#[trigger] starts_with_mode(
                    q[k],
                ) by {
                    assert(q[k] == p[k]);
                }
            }
        }
        i = i + 1;
    }
    proof {
        assert(s.take(n as int) =~= s);
    }
    if cur.len() > 0 && is_mode_option(&cur) {
        proof {
            let p = split_commas(s);
            assert(option_pieces(s) == p);
            assert(starts_with_mode(option_pieces(s)[p.len() - 1]));
        }
        return false;
    }
    proof {
        let p = split_commas(s);
        assert forall|k: int| 0 <= k < option_pieces(s).len() implies !#[trigger] starts_with_mode(
            option_pieces(s)[k],
        ) by {
            assert(option_pieces(s)[k] == p[k]);
        }
    }
    true
}

pub open spec fn comma_free(a: Seq<char>) -> bool {
    forall|i: int| 0 <= i < a.len() ==> a[i] != ','
}

proof fn lemma_split_commas_comma_free(a: Seq<char>)
    requires
        comma_free(a),
    ensures
        split_commas(a) == seq![a],
    decreases a.len(),
{
    if a.len() == 0 {
        assert(a =~= Seq::<char>::empty());
        assert(split_commas(a) =~= seq![a]);
    } else {
        let d = a.drop_last();
        assert(comma_free(d));
        lemma_split_commas_comma_free(d);
        assert(a.last() != ',');
        assert(d.push(a.last()) =~= a);
        assert(split_commas(a) =~= seq![a]);
    }
}

proof fn lemma_split_commas_after_comma(a: Seq<char>, b: Seq<char>)
    requires
        comma_free(a),
    ensures
        split_commas(a + seq![','] + b) == seq![a] + split_commas(b),
    decreases b.len(),
{
    let t = a + seq![','] + b;
    lemma_split_commas_comma_free(a);
    lemma_split_commas_nonempty(b);
    if b.len() == 0 {
        assert(t.drop_last() =~= a);
        assert(t.last() == ',');
        assert(split_commas(b) =~= seq![Seq::<char>::empty()]);
        assert(split_commas(t) =~= seq![a] + split_commas(b));
    } else {
        let b1 = b.drop_last();
        lemma_split_commas_after_comma(a, b1);
        lemma_split_commas_nonempty(b1);
        assert(t.drop_last() =~= a + seq![','] + b1);
        assert(t.last() == b.last());
        let s1 = split_commas(b1);
        let p = seq![a] + s1;
        if b.last() == ',' {
            assert(split_commas(t) =~= seq![a] + split_commas(b));
        } else {
            assert(p.last() == s1.last());
            assert(p.update(p.len() - 1, p.last().push(b.last())) =~= seq![a] + s1.update(
                s1.len() - 1,
                s1.last().push(b.last()),
            ));
            assert(split_commas(t) =~= seq![a] + split_commas(b));
        }
    }
}

/// Text without commas is one option, or none when it is empty.
pub proof fn law_option_pieces_single(a: Seq<char>)
    requires
        comma_free(a),
    ensures
        a.len() == 0 ==> option_pieces(a) == Seq::<Seq<char>>::empty(),
        a.len() > 0 ==> option_pieces(a) == seq![a],
{
    lemma_split_commas_comma_free(a);
    if a.len() == 0 {
        assert(option_pieces(a) =~= Seq::<Seq<char>>::empty());
    }
}

/// The options of text are its pieces between commas, in order: the text up
/// to the first comma is the first option (empty or not), followed by the
/// options of the rest.
pub proof fn law_option_pieces_split(a: Seq<char>, b: Seq<char>)
    requires
        comma_free(a),
    ensures
        option_pieces(a + seq![','] + b) == seq![a] + option_pieces(b),
{
    lemma_split_commas_after_comma(a, b);
    lemma_split_commas_nonempty(b);
    let s = split_commas(b);
    let p = seq![a] + s;
    assert(p.last() == s.last());
    if s.last().len() == 0 {
        assert(p.drop_last() =~= seq![a] + s.drop_last());
    }
}

/// What one option does to the mount options: exactly the text `debug`
/// switches debugging on and changes nothing else; an option that does not
/// start with `mode=` and is not `debug` changes nothing.
pub proof fn law_option_effect(o: RamfsMountOpts, p: Seq<char>)
    ensures
        starts_with_mode(p) <==> (p.len() >= 5 && p[0] == 'm' && p[1] == 'o' && p[2] == 'd'
            && p[3] == 'e' && p[4] == '='),
        apply_option(o, seq!['d', 'e', 'b', 'u', 'g']) == (RamfsMountOpts { debug: true, ..o }),
        (!starts_with_mode(p) && p != seq!['d', 'e', 'b', 'u', 'g']) ==> apply_option(o, p) == o,
{
    if p.len() >= 5 {
        assert(p.take(5)[0] == p[0] && p.take(5)[1] == p[1] && p.take(5)[2] == p[2] && p.take(5)[3]
            == p[3] && p.take(5)[4] == p[4]);
        if p[0] == 'm' && p[1] == 'o' && p[2] == 'd' && p[3] == 'e' && p[4] == '=' {
            assert(p.take(5) =~= mode_prefix());
        }
    }
    let d = seq!['d', 'e', 'b', 'u', 'g'];
    assert(!starts_with_mode(d));
    assert(d =~= debug_word());
}

} // verus!
