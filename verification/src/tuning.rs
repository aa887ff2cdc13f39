//! Tuning helpers: tuning-system kinds, note names and the scale position
//! (octave and degree) from which a tuning table looks up a note's ratio.

use vstd::prelude::*;

verus! {

/// Predefined tuning system types.
#[derive(Debug, Clone, Copy, PartialEq, Eq, Structural, Hash)]
pub enum TuningSystem {
    /// Standard 12-tone equal temperament.
    EqualTemperament,
    /// Just intonation (pure intervals based on small integer ratios).
    JustIntonation,
    /// Pythagorean tuning (based on perfect fifths, ratio 3:2).
    Pythagorean,
}

/// Name of pitch class `pc` (0 = C, ..., 11 = B), sharps for the black keys.
pub open spec fn pitch_class_name(pc: int) -> Seq<char> {
    if pc == 0 {
        seq!['C']
    } else if pc == 1 {
        seq!['C', '#']
    } else if pc == 2 {
        seq!['D']
    } else if pc == 3 {
        seq!['D', '#']
    } else if pc == 4 {
        seq!['E']
    } else if pc == 5 {
        seq!['F']
    } else if pc == 6 {
        seq!['F', '#']
    } else if pc == 7 {
        seq!['G']
    } else if pc == 8 {
        seq!['G', '#']
    } else if pc == 9 {
        seq!['A']
    } else if pc == 10 {
        seq!['A', '#']
    } else {
        seq!['B']
    }
}

/// The character of decimal digit `d` (0..=9).
pub open spec fn digit_char(d: int) -> char {
    if d == 0 {
        '0'
    } else if d == 1 {
        '1'
    } else if d == 2 {
        '2'
    } else if d == 3 {
        '3'
    } else if d == 4 {
        '4'
    } else if d == 5 {
        '5'
    } else if d == 6 {
        '6'
    } else if d == 7 {
        '7'
    } else if d == 8 {
        '8'
    } else {
        '9'
    }
}

/// Decimal representation of a natural number, without leading zeros.
pub open spec fn decimal(n: nat) -> Seq<char>
    decreases n,
{
    if n < 10 {
        seq![digit_char(n as int)]
    } else {
        decimal(n / 10) + seq![digit_char((n % 10) as int)]
    }
}

/// Decimal representation of an integer, with a leading `-` when negative.
pub open spec fn signed_decimal(n: int) -> Seq<char> {
    if n < 0 {
        seq!['-'] + decimal((-n) as nat)
    } else {
        decimal(n as nat)
    }
}

/// Scientific pitch name of a MIDI note: pitch class then octave, where
/// octave -1 starts at note 0 (so 60 is `C4` and 69 is `A4`).
pub open spec fn note_name_spec(note: u8) -> Seq<char> {
    pitch_class_name((note % 12) as int) + signed_decimal(note / 12 - 1)
}

fn pitch_class_str(pc: u8) -> (s: &'static str)
    requires
        pc < 12,
    ensures
        s@ == pitch_class_name(pc as int),
{
    if pc == 0 {
        proof { reveal_strlit("C"); }
        "C"
    } else if pc == 1 {
        proof { reveal_strlit("C#"); }
        "C#"
    } else if pc == 2 {
        proof { reveal_strlit("D"); }
        "D"
    } else if pc == 3 {
        proof { reveal_strlit("D#"); }
        "D#"
    } else if pc == 4 {
        proof { reveal_strlit("E"); }
        "E"
    } else if pc == 5 {
        proof { reveal_strlit("F"); }
        "F"
    } else if pc == 6 {
        proof { reveal_strlit("F#"); }
        "F#"
    } else if pc == 7 {
        proof { reveal_strlit("G"); }
        "G"
    } else if pc == 8 {
        proof { reveal_strlit("G#"); }
        "G#"
    } else if pc == 9 {
        proof { reveal_strlit("A"); }
        "A"
    } else if pc == 10 {
        proof { reveal_strlit("A#"); }
        "A#"
    } else {
        proof { reveal_strlit("B"); }
        "B"
    }
}

fn digit_str(d: u8) -> (s: &'static str)
    requires
        d < 10,
    ensures
        s@ == seq![digit_char(d as int)],
{
    if d == 0 {
        proof { reveal_strlit("0"); }
        "0"
    } else if d == 1 {
        proof { reveal_strlit("1"); }
        "1"
    } else if d == 2 {
        proof { reveal_strlit("2"); }
        "2"
    } else if d == 3 {
        proof { reveal_strlit("3"); }
        "3"
    } else if d == 4 {
        proof { reveal_strlit("4"); }
        "4"
    } else if d == 5 {
        proof { reveal_strlit("5"); }
        "5"
    } else if d == 6 {
        proof { reveal_strlit("6"); }
        "6"
    } else if d == 7 {
        proof { reveal_strlit("7"); }
        "7"
    } else if d == 8 {
        proof { reveal_strlit("8"); }
        "8"
    } else {
        proof { reveal_strlit("9"); }
        "9"
    }
}

/// Append the decimal digits of `n` to `s`.
fn append_decimal(s: &mut String, n: u8)
    ensures
        final(s)@ == old(s)@ + decimal(n as nat),
{
    if n >= 100 {
        s.append(digit_str(n / 100));
        s.append(digit_str((n / 10) % 10));
        proof {
            assert(decimal((n / 10) as nat) == decimal((n / 100) as nat) + seq![
                digit_char(((n / 10) % 10) as int),
            ]);
        }
    } else if n >= 10 {
        s.append(digit_str(n / 10));
    }
    s.append(digit_str(n % 10));
    proof {
        assert(decimal(n as nat) == decimal((n / 10) as nat) + seq![digit_char((n % 10) as int)]
            || n < 10);
    }
}

/// The decimal form of a natural number has at least one character, two or
/// more from ten on, and starts with a digit (never a sign or a `#`).
pub proof fn lemma_decimal_shape(n: nat)
    ensures
        decimal(n).len() >= 1,
        n < 10 ==> decimal(n).len() == 1,
        n >= 10 ==> decimal(n).len() >= 2,
        decimal(n)[0] != '#',
        decimal(n)[0] != '-',
    decreases n,
{
    if n >= 10 {
        lemma_decimal_shape(n / 10);
        assert((decimal(n / 10) + seq![digit_char((n % 10) as int)])[0] == decimal(n / 10)[0]);
    }
}

/// The value of a decimal digit character (`'0'` to `'9'`).
pub open spec fn digit_value(c: char) -> int {
    if c == '1' {
        1
    } else if c == '2' {
        2
    } else if c == '3' {
        3
    } else if c == '4' {
        4
    } else if c == '5' {
        5
    } else if c == '6' {
        6
    } else if c == '7' {
        7
    } else if c == '8' {
        8
    } else if c == '9' {
        9
    } else {
        0
    }
}

/// The number a string of decimal digits denotes, most significant first.
pub open spec fn digits_value(s: Seq<char>) -> int
    decreases s.len(),
{
    if s.len() == 0 {
        0
    } else {
        10 * digits_value(s.drop_last()) + digit_value(s.last())
    }
}

/// Reading the decimal form of `n` back digit by digit gives `n`.
pub proof fn lemma_decimal_round_trip(n: nat)
    ensures
        digits_value(decimal(n)) == n,
    decreases n,
{
    let k = (n % 10) as int;
    assert(digit_value(digit_char(k)) == k) by {
        if k == 0 {
        } else if k == 1 {
        } else if k == 2 {
        } else if k == 3 {
        } else if k == 4 {
        } else if k == 5 {
        } else if k == 6 {
        } else if k == 7 {
        } else if k == 8 {
        } else {
        }
    }
    if n < 10 {
        assert(seq![digit_char(n as int)].drop_last() =~= Seq::<char>::empty());
        assert(digits_value(Seq::<char>::empty()) == 0);
    } else {
        lemma_decimal_round_trip(n / 10);
        let d = decimal(n / 10);
        let c = digit_char(k);
        assert((d + seq![c]).drop_last() =~= d);
        assert((d + seq![c]).last() == c);
    }
}

/// Distinct natural numbers have distinct decimal forms.
pub proof fn lemma_decimal_injective(n: nat, m: nat)
    ensures
        decimal(n) == decimal(m) ==> n == m,
    decreases n,
{
    lemma_decimal_shape(n);
    lemma_decimal_shape(m);
    if decimal(n) == decimal(m) && n >= 10 && m >= 10 {
        let dn = decimal(n / 10);
        let dm = decimal(m / 10);
        let cn = digit_char((n % 10) as int);
        let cm = digit_char((m % 10) as int);
        assert((dn + seq![cn]).drop_last() =~= dn);
        assert((dm + seq![cm]).drop_last() =~= dm);
        assert((dn + seq![cn]).last() == cn);
        assert((dm + seq![cm]).last() == cm);
        lemma_decimal_injective(n / 10, m / 10);
    }
    if decimal(n) == decimal(m) && n < 10 && m < 10 {
        assert(decimal(n)[0] == digit_char(n as int));
        assert(decimal(m)[0] == digit_char(m as int));
    }
}

/// The twelve pitch-class names in order from C: the natural notes C D E F
/// G A B at 0, 2, 4, 5, 7, 9 and 11, and each black key the natural below it
/// followed by `#`. No two pitch classes share a name.
pub proof fn lemma_pitch_class_names()
    ensures
        pitch_class_name(0) == seq!['C'],
        pitch_class_name(1) == seq!['C', '#'],
        pitch_class_name(2) == seq!['D'],
        pitch_class_name(3) == seq!['D', '#'],
        pitch_class_name(4) == seq!['E'],
        pitch_class_name(5) == seq!['F'],
        pitch_class_name(6) == seq!['F', '#'],
        pitch_class_name(7) == seq!['G'],
        pitch_class_name(8) == seq!['G', '#'],
        pitch_class_name(9) == seq!['A'],
        pitch_class_name(10) == seq!['A', '#'],
        pitch_class_name(11) == seq!['B'],
        forall|a: int, b: int|
            0 <= a < 12 && 0 <= b < 12 && a != b ==> #[trigger] pitch_class_name(a)
                != #[trigger] pitch_class_name(b),
{
    assert forall|a: int, b: int|
        0 <= a < 12 && 0 <= b < 12 && a != b implies #[trigger] pitch_class_name(a)
            != #[trigger] pitch_class_name(b) by {
        let pa = pitch_class_name(a);
        let pb = pitch_class_name(b);
        if pa.len() == pb.len() && pa[0] == pb[0] {
            assert(pa.len() == 2 ==> pa[1] == '#' && pb[1] == '#');
        }
        assert(pa.len() != pb.len() || pa[0] != pb[0]);
    }
}

/// After the pitch-class name comes the octave: `-1` for the notes below 12,
/// and from note 12 on the decimal digits of `note / 12 - 1`, so that notes
/// 60 to 71 are in octave 4 and each further 12 notes add one.
pub proof fn lemma_note_name_octave(note: u8)
    ensures
        ({
            let name = note_name_spec(note);
            let suffix = name.skip(pitch_class_name((note % 12) as int).len() as int);
            &&& note < 12 ==> suffix == seq!['-', '1']
            &&& note >= 12 ==> digits_value(suffix) == note / 12 - 1 && suffix[0] != '-'
        }),
{
    let p = pitch_class_name((note % 12) as int);
    let o = note / 12 - 1;
    assert((p + signed_decimal(o)).skip(p.len() as int) =~= signed_decimal(o));
    if note >= 12 {
        lemma_decimal_round_trip(o as nat);
        lemma_decimal_shape(o as nat);
    } else {
        assert(decimal(1) == seq!['1']);
    }
}

/// Every MIDI note has its own name: two different notes never share one.
pub proof fn lemma_note_names_distinct(a: u8, b: u8)
    ensures
        a != b ==> note_name_spec(a) != note_name_spec(b),
{
    lemma_pitch_class_names();
    let pa = pitch_class_name((a % 12) as int);
    let pb = pitch_class_name((b % 12) as int);
    let oa = a / 12 - 1;
    let ob = b / 12 - 1;
    let sa = signed_decimal(oa);
    let sb = signed_decimal(ob);
    lemma_decimal_shape(if oa < 0 { (-oa) as nat } else { oa as nat });
    lemma_decimal_shape(if ob < 0 { (-ob) as nat } else { ob as nat });
    assert(sa.len() >= 1 && sa[0] != '#');
    assert(sb.len() >= 1 && sb[0] != '#');
    if note_name_spec(a) == note_name_spec(b) {
        let s = note_name_spec(a);
        assert(s == pa + sa);
        assert(s == pb + sb);
        assert(s[0] == pa[0] && s[0] == pb[0]);
        assert(pa.len() == 2 <==> s[1] == '#');
        assert(pb.len() == 2 <==> s[1] == '#');
        assert(pa.len() == pb.len());
        assert(pa =~= s.take(pa.len() as int));
        assert(pb =~= s.take(pb.len() as int));
        assert(sa =~= s.skip(pa.len() as int));
        assert(sb =~= s.skip(pb.len() as int));
        assert(a % 12 == b % 12);
        if oa >= 0 && ob >= 0 {
            lemma_decimal_injective(oa as nat, ob as nat);
        } else if oa < 0 && ob >= 0 {
            assert(sa[0] == '-');
        } else if oa >= 0 && ob < 0 {
            assert(sb[0] == '-');
        }
        assert(oa == ob);
    }
}

/// Note name helper — convert a MIDI note to a name string such as `"A4"`.
///
/// The name starts with the letter of the note's pitch class, from the table
/// C C D D E F F G G A A B, followed by `#` exactly for the five black keys.
pub fn note_name(note: u8) -> (name: String)
    ensures
        name@ == note_name_spec(note),
        name@.len() >= 2,
        name@[0] == seq!['C', 'C', 'D', 'D', 'E', 'F', 'F', 'G', 'G', 'A', 'A', 'B'][(note
            % 12) as int],
        (name@[1] == '#') == seq![
            false,
            true,
            false,
            true,
            false,
            false,
            true,
            false,
            true,
            false,
            true,
            false,
        ][(note % 12) as int],
{
    let mut name = String::new();
    name.append(pitch_class_str(note % 12));
    let octave_plus_one = note / 12;
    if octave_plus_one == 0 {
        proof { reveal_strlit("-1"); }
        name.append("-1");
    } else {
        append_decimal(&mut name, octave_plus_one - 1);
    }
    proof {
        lemma_pitch_class_names();
        let o = note / 12 - 1;
        lemma_decimal_shape(if o < 0 { (-o) as nat } else { o as nat });
        let p = pitch_class_name((note % 12) as int);
        let d = signed_decimal(o);
        assert(d.len() >= 1 && d[0] != '#');
        assert((p + d)[0] == p[0]);
        assert(p.len() == 1 ==> (p + d)[1] == d[0]);
        assert(p.len() == 2 ==> (p + d)[1] == p[1]);
    }
    name
}

/// Position of a MIDI note in a 12-degree scale anchored at C4 (note 60):
/// `(octave, degree)` with `octave * 12 + degree == note - 60`.
pub open spec fn scale_position(note: u8) -> (int, int) {
    (note / 12 - 5, (note % 12) as int)
}

/// The octave and scale degree used to look a note up in a 12-entry tuning
/// table: degree 0 is C and degree 9 is A, so note 69 (A4) is degree 9 of
/// octave 0.
pub fn note_scale_position(note: u8) -> (r: (i32, usize))
    ensures
        r.0 == scale_position(note).0,
        r.1 == scale_position(note).1,
        r.1 < 12,
        r.0 * 12 + r.1 == note - 60,
{
    let octave = (note / 12) as i32 - 5;
    let degree = (note % 12) as usize;
    (octave, degree)
}

/// Notes an octave apart share a scale degree and sit one octave apart; the
/// degree of a note is the pitch class that names it.
pub proof fn lemma_octave_equivalence(note: u8)
    requires
        note + 12 <= u8::MAX,
    ensures
        scale_position((note + 12) as u8).1 == scale_position(note).1,
        scale_position((note + 12) as u8).0 == scale_position(note).0 + 1,
        note_name_spec(note).take(pitch_class_name(scale_position(note).1).len() as int)
            == pitch_class_name(scale_position(note).1),
{
    let n2 = (note + 12) as u8;
    assert(n2 / 12 == note / 12 + 1);
    assert(n2 % 12 == note % 12);
    let p = pitch_class_name((note % 12) as int);
    assert((p + signed_decimal(note / 12 - 1)).take(p.len() as int) =~= p);
}

/// Name of a predefined tuning system.
pub open spec fn system_name_spec(system: TuningSystem) -> Seq<char> {
    match system {
        TuningSystem::EqualTemperament => "Equal Temperament"@,
        TuningSystem::JustIntonation => "Just Intonation"@,
        TuningSystem::Pythagorean => "Pythagorean"@,
    }
}

/// The display name of a predefined tuning system.
pub fn system_name(system: TuningSystem) -> (s: &'static str)
    ensures
        s@ == system_name_spec(system),
{
    match system {
        TuningSystem::EqualTemperament => "Equal Temperament",
        TuningSystem::JustIntonation => "Just Intonation",
        TuningSystem::Pythagorean => "Pythagorean",
    }
}

/// Each tuning system has its own display name.
pub proof fn lemma_system_names_distinct(a: TuningSystem, b: TuningSystem)
    ensures
        a != b ==> system_name_spec(a) != system_name_spec(b),
{
    reveal_strlit("Equal Temperament");
    reveal_strlit("Just Intonation");
    reveal_strlit("Pythagorean");
    assert(system_name_spec(TuningSystem::EqualTemperament)[0] == 'E');
    assert(system_name_spec(TuningSystem::JustIntonation)[0] == 'J');
    assert(system_name_spec(TuningSystem::Pythagorean)[0] == 'P');
}

/// Just-intonation ratio of scale degree `d` above the root, as
/// `(numerator, denominator)`: pure intervals of small whole numbers.
pub open spec fn just_ratio(d: int) -> (int, int) {
    if d == 0 {
        (1, 1)
    } else if d == 1 {
        (16, 15)
    } else if d == 2 {
        (9, 8)
    } else if d == 3 {
        (6, 5)
    } else if d == 4 {
        (5, 4)
    } else if d == 5 {
        (4, 3)
    } else if d == 6 {
        (45, 32)
    } else if d == 7 {
        (3, 2)
    } else if d == 8 {
        (8, 5)
    } else if d == 9 {
        (5, 3)
    } else if d == 10 {
        (9, 5)
    } else {
        (15, 8)
    }
}

/// Pythagorean ratio of scale degree `d` above the root, as
/// `(numerator, denominator)`: stacked pure fifths folded into the octave.
pub open spec fn pythagorean_ratio(d: int) -> (int, int) {
    if d == 0 {
        (1, 1)
    } else if d == 1 {
        (256, 243)
    } else if d == 2 {
        (9, 8)
    } else if d == 3 {
        (32, 27)
    } else if d == 4 {
        (81, 64)
    } else if d == 5 {
        (4, 3)
    } else if d == 6 {
        (729, 512)
    } else if d == 7 {
        (3, 2)
    } else if d == 8 {
        (128, 81)
    } else if d == 9 {
        (27, 16)
    } else if d == 10 {
        (16, 9)
    } else {
        (243, 128)
    }
}

/// The exact ratio of scale degree `degree` in a tuning system, or `None`
/// for equal temperament, whose ratios `2^(degree/12)` are irrational.
pub fn interval_ratio(system: TuningSystem, degree: usize) -> (r: Option<(u32, u32)>)
    requires
        degree < 12,
    ensures
        system == TuningSystem::EqualTemperament ==> r is None,
        system == TuningSystem::JustIntonation ==> (r matches Some((n, d)) && (n as int, d as int)
            == just_ratio(degree as int)),
        system == TuningSystem::Pythagorean ==> (r matches Some((n, d)) && (n as int, d as int)
            == pythagorean_ratio(degree as int)),
{
    match system {
        TuningSystem::EqualTemperament => None,
        TuningSystem::JustIntonation => {
            let r: (u32, u32) = if degree == 0 {
                (1, 1)
            } else if degree == 1 {
                (16, 15)
            } else if degree == 2 {
                (9, 8)
            } else if degree == 3 {
                (6, 5)
            } else if degree == 4 {
                (5, 4)
            } else if degree == 5 {
                (4, 3)
            } else if degree == 6 {
                (45, 32)
            } else if degree == 7 {
                (3, 2)
            } else if degree == 8 {
                (8, 5)
            } else if degree == 9 {
                (5, 3)
            } else if degree == 10 {
                (9, 5)
            } else {
                (15, 8)
            };
            Some(r)
        },
        TuningSystem::Pythagorean => {
            let r: (u32, u32) = if degree == 0 {
                (1, 1)
            } else if degree == 1 {
                (256, 243)
            } else if degree == 2 {
                (9, 8)
            } else if degree == 3 {
                (32, 27)
            } else if degree == 4 {
                (81, 64)
            } else if degree == 5 {
                (4, 3)
            } else if degree == 6 {
                (729, 512)
            } else if degree == 7 {
                (3, 2)
            } else if degree == 8 {
                (128, 81)
            } else if degree == 9 {
                (27, 16)
            } else if degree == 10 {
                (16, 9)
            } else {
                (243, 128)
            };
            Some(r)
        },
    }
}

/// `a/b < c/d` for positive denominators.
pub open spec fn ratio_lt(a: (int, int), c: (int, int)) -> bool {
    a.0 * c.1 < c.0 * a.1
}

/// Both rational scales start at the unison `1/1`, stay within one octave
/// (`1 <= ratio < 2`), rise strictly from degree to degree, and share the
/// pure fourth `4/3` and fifth `3/2`.
pub proof fn lemma_rational_scales(i: int, j: int)
    requires
        0 <= i < j < 12,
    ensures
        just_ratio(0) == (1int, 1int),
        pythagorean_ratio(0) == (1int, 1int),
        just_ratio(5) == (4int, 3int) && pythagorean_ratio(5) == (4int, 3int),
        just_ratio(7) == (3int, 2int) && pythagorean_ratio(7) == (3int, 2int),
        just_ratio(j).1 <= just_ratio(j).0 < 2 * just_ratio(j).1,
        pythagorean_ratio(j).1 <= pythagorean_ratio(j).0 < 2 * pythagorean_ratio(j).1,
        ratio_lt(just_ratio(i), just_ratio(j)),
        ratio_lt(pythagorean_ratio(i), pythagorean_ratio(j)),
{
    lemma_ascending_from(i, j);
}

proof fn lemma_ratio_lt_trans(a: (int, int), c: (int, int), e: (int, int))
    requires
        a.1 > 0,
        c.1 > 0,
        e.1 > 0,
        ratio_lt(a, c),
        ratio_lt(c, e),
    ensures
        ratio_lt(a, e),
{
    assert(a.0 * e.1 < e.0 * a.1) by (nonlinear_arith)
        requires
            a.1 > 0,
            c.1 > 0,
            e.1 > 0,
            a.0 * c.1 < c.0 * a.1,
            c.0 * e.1 < e.0 * c.1,
    ;
}

proof fn lemma_consecutive(k: int)
    requires
        0 <= k < 11,
    ensures
        ratio_lt(just_ratio(k), just_ratio(k + 1)),
        ratio_lt(pythagorean_ratio(k), pythagorean_ratio(k + 1)),
        just_ratio(k).1 > 0 && pythagorean_ratio(k).1 > 0,
        just_ratio(k + 1).1 > 0 && pythagorean_ratio(k + 1).1 > 0,
        just_ratio(k + 1).1 <= just_ratio(k + 1).0 < 2 * just_ratio(k + 1).1,
        pythagorean_ratio(k + 1).1 <= pythagorean_ratio(k + 1).0 < 2 * pythagorean_ratio(k + 1).1,
{
    if k == 0 {
        assert(ratio_lt(pythagorean_ratio(0), pythagorean_ratio(1)));
        assert(ratio_lt(just_ratio(0), just_ratio(1)));
    } else if k == 1 {
        assert(ratio_lt(pythagorean_ratio(1), pythagorean_ratio(2)));
        assert(ratio_lt(just_ratio(1), just_ratio(2)));
    } else if k == 2 {
        assert(ratio_lt(pythagorean_ratio(2), pythagorean_ratio(3)));
        assert(ratio_lt(just_ratio(2), just_ratio(3)));
    } else if k == 3 {
        assert(ratio_lt(pythagorean_ratio(3), pythagorean_ratio(4)));
        assert(ratio_lt(just_ratio(3), just_ratio(4)));
    } else if k == 4 {
        assert(ratio_lt(pythagorean_ratio(4), pythagorean_ratio(5)));
        assert(ratio_lt(just_ratio(4), just_ratio(5)));
    } else if k == 5 {
        assert(ratio_lt(pythagorean_ratio(5), pythagorean_ratio(6)));
        assert(ratio_lt(just_ratio(5), just_ratio(6)));
    } else if k == 6 {
        assert(ratio_lt(pythagorean_ratio(6), pythagorean_ratio(7)));
        assert(ratio_lt(just_ratio(6), just_ratio(7)));
    } else if k == 7 {
        assert(ratio_lt(pythagorean_ratio(7), pythagorean_ratio(8)));
        assert(ratio_lt(just_ratio(7), just_ratio(8)));
    } else if k == 8 {
        assert(ratio_lt(pythagorean_ratio(8), pythagorean_ratio(9)));
        assert(ratio_lt(just_ratio(8), just_ratio(9)));
    } else if k == 9 {
        assert(ratio_lt(pythagorean_ratio(9), pythagorean_ratio(10)));
        assert(ratio_lt(just_ratio(9), just_ratio(10)));
    } else {
        assert(ratio_lt(pythagorean_ratio(10), pythagorean_ratio(11)));
        assert(ratio_lt(just_ratio(10), just_ratio(11)));
    }
}

proof fn lemma_ascending_from(i: int, j: int)
    requires
        0 <= i < j < 12,
    ensures
        ratio_lt(just_ratio(i), just_ratio(j)),
        ratio_lt(pythagorean_ratio(i), pythagorean_ratio(j)),
        just_ratio(j).1 <= just_ratio(j).0 < 2 * just_ratio(j).1,
        pythagorean_ratio(j).1 <= pythagorean_ratio(j).0 < 2 * pythagorean_ratio(j).1,
    decreases j - i,
{
    lemma_consecutive(j - 1);
    if j - 1 > i {
        lemma_ascending_from(i, j - 1);
        lemma_consecutive(i);
        lemma_ratio_lt_trans(just_ratio(i), just_ratio(j - 1), just_ratio(j));
        lemma_ratio_lt_trans(pythagorean_ratio(i), pythagorean_ratio(j - 1), pythagorean_ratio(j));
    }
}

/// An interval and its inversion make an octave: the ratios of degrees `d`
/// and `12 - d` multiply to `2/1`, in the Pythagorean scale for every degree
/// but the tritone (6), which is its own inversion, and in just intonation
/// for every degree but the tritone and the seconds and sevenths (2 and 10),
/// where the just minor seventh `9/5` is the inversion of `10/9`, not of the
/// major second `9/8`.
pub proof fn lemma_inversions_make_octave(d: int)
    by (nonlinear_arith)
    requires
        1 <= d < 12,
        d != 6,
    ensures
        d != 2 && d != 10 ==> ({
            let (n, m) = just_ratio(d);
            let (ni, mi) = just_ratio(12 - d);
            n * ni == 2 * m * mi
        }),
        ({
            let (n, m) = pythagorean_ratio(d);
            let (ni, mi) = pythagorean_ratio(12 - d);
            n * ni == 2 * m * mi
        }),
{
    if d == 1 {
        assert(just_ratio(1) == (16int, 15int) && just_ratio(11) == (15int, 8int));
        assert(pythagorean_ratio(1) == (256int, 243int) && pythagorean_ratio(11) == (243int, 128int));
    } else if d == 2 {
        assert(just_ratio(2) == (9int, 8int) && just_ratio(10) == (9int, 5int));
        assert(pythagorean_ratio(2) == (9int, 8int) && pythagorean_ratio(10) == (16int, 9int));
    } else if d == 3 {
        assert(just_ratio(3) == (6int, 5int) && just_ratio(9) == (5int, 3int));
        assert(pythagorean_ratio(3) == (32int, 27int) && pythagorean_ratio(9) == (27int, 16int));
    } else if d == 4 {
        assert(just_ratio(4) == (5int, 4int) && just_ratio(8) == (8int, 5int));
        assert(pythagorean_ratio(4) == (81int, 64int) && pythagorean_ratio(8) == (128int, 81int));
    } else if d == 5 {
        assert(just_ratio(5) == (4int, 3int) && just_ratio(7) == (3int, 2int));
        assert(pythagorean_ratio(5) == (4int, 3int) && pythagorean_ratio(7) == (3int, 2int));
    } else if d == 7 {
        assert(just_ratio(7) == (3int, 2int) && just_ratio(5) == (4int, 3int));
        assert(pythagorean_ratio(7) == (3int, 2int) && pythagorean_ratio(5) == (4int, 3int));
    } else if d == 8 {
        assert(just_ratio(8) == (8int, 5int) && just_ratio(4) == (5int, 4int));
        assert(pythagorean_ratio(8) == (128int, 81int) && pythagorean_ratio(4) == (81int, 64int));
    } else if d == 9 {
        assert(just_ratio(9) == (5int, 3int) && just_ratio(3) == (6int, 5int));
        assert(pythagorean_ratio(9) == (27int, 16int) && pythagorean_ratio(3) == (32int, 27int));
    } else if d == 10 {
        assert(just_ratio(10) == (9int, 5int) && just_ratio(2) == (9int, 8int));
        assert(pythagorean_ratio(10) == (16int, 9int) && pythagorean_ratio(2) == (9int, 8int));
    } else if d == 11 {
        assert(just_ratio(11) == (15int, 8int) && just_ratio(1) == (16int, 15int));
        assert(pythagorean_ratio(11) == (243int, 128int) && pythagorean_ratio(1) == (256int, 243int));
    }
}

/// The Pythagorean scale is a chain of pure fifths: going up seven degrees
/// (a fifth, folded back into the octave) multiplies the ratio by `3/2`, or
/// by `3/4` when the fold drops an octave, from every degree except the
/// tritone (6), where the chain closes.
pub proof fn lemma_pythagorean_fifths(d: int)
    requires
        0 <= d < 12,
        d != 6,
    ensures
        ({
            let (n, m) = pythagorean_ratio(d);
            let (n5, m5) = pythagorean_ratio((d + 7) % 12);
            if d + 7 < 12 {
                2 * n5 * m == 3 * n * m5
            } else {
                4 * n5 * m == 3 * n * m5
            }
        }),
{
    if d == 0 {
        assert(pythagorean_ratio(0) == (1int, 1int) && pythagorean_ratio(7) == (3int, 2int));
    } else if d == 1 {
        assert(pythagorean_ratio(1) == (256int, 243int) && pythagorean_ratio(8) == (128int, 81int));
    } else if d == 2 {
        assert(pythagorean_ratio(2) == (9int, 8int) && pythagorean_ratio(9) == (27int, 16int));
    } else if d == 3 {
        assert(pythagorean_ratio(3) == (32int, 27int) && pythagorean_ratio(10) == (16int, 9int));
    } else if d == 4 {
        assert(pythagorean_ratio(4) == (81int, 64int) && pythagorean_ratio(11) == (243int, 128int));
    } else if d == 5 {
        assert(pythagorean_ratio(5) == (4int, 3int) && pythagorean_ratio(0) == (1int, 1int));
    } else if d == 7 {
        assert(pythagorean_ratio(7) == (3int, 2int) && pythagorean_ratio(2) == (9int, 8int));
    } else if d == 8 {
        assert(pythagorean_ratio(8) == (128int, 81int) && pythagorean_ratio(3) == (32int, 27int));
    } else if d == 9 {
        assert(pythagorean_ratio(9) == (27int, 16int) && pythagorean_ratio(4) == (81int, 64int));
    } else if d == 10 {
        assert(pythagorean_ratio(10) == (16int, 9int) && pythagorean_ratio(5) == (4int, 3int));
    } else if d == 11 {
        assert(pythagorean_ratio(11) == (243int, 128int) && pythagorean_ratio(6) == (729int, 512int));
    }
}

} // verus!
