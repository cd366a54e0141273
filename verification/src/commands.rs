//! What the bot's commands compute: the picture `/nade` shows, the mute list,
//! and the role panel of `give_role`.

use vstd::prelude::*;

use crate::mention::{push_role_mention, push_user_mention, role_mention_spec, user_mention_spec};
use crate::text::{
    chars_of, char_from_u32, decimal_spec, digit_spec, push_char, str_eq, string_of, trim_chars,
    trim_spec,
};

verus! {

pub open spec fn nade_red() -> Seq<char> {
    "https://media.discordapp.net/attachments/840924639223349250/879655572281106432/index.gif"@
}

/// The picture of Reimu being petted in the asked colour (red when none is
/// asked), or the answer that there is no such colour.
pub open spec fn nade_spec(color: Option<Seq<char>>) -> Seq<char> {
    match color {
        None => nade_red(),
        Some(c) => if c == "red"@ {
            nade_red()
        } else if c == "blue"@ {
            "https://media.discordapp.net/attachments/840924639223349250/879655365522911262/index.gif"@
        } else if c == "green"@ {
            "https://media.discordapp.net/attachments/840924639223349250/879655924258717717/index.gif"@
        } else if c == "yellow"@ || c == "gold"@ {
            "https://media.discordapp.net/attachments/907217028031578127/940637756642689074/index.gif"@
        } else if c == "white"@ {
            "https://media.discordapp.net/attachments/840924639223349250/923831999892955156/index.gif"@
        } else if c == "black"@ {
            "https://cdn.discordapp.com/attachments/945894119513931846/945894299889958942/index.gif"@
        } else if c == "ukraine"@ {
            "https://cdn.discordapp.com/attachments/945894119513931846/946312974715469824/index.gif"@
        } else {
            "この色はありません"@
        },
    }
}

/// The colours `/nade` offers.
pub open spec fn nade_offers(c: Seq<char>) -> bool {
    c == "red"@
        || c == "blue"@
        || c == "green"@
        || c == "yellow"@
        || c == "gold"@
        || c == "white"@
        || c == "black"@
        || c == "ukraine"@
}

/// Each colour `/nade` offers shows its own picture (yellow and gold share
/// one), no colour shows red's picture; no colour asked gives red's; and the
/// answer that there is no such colour comes exactly for the colours not
/// offered.
pub proof fn law_nade_pictures(c: Seq<char>)
    ensures
        nade_spec(None) == "https://media.discordapp.net/attachments/840924639223349250/879655572281106432/index.gif"@,
        nade_spec(Some("red"@)) == "https://media.discordapp.net/attachments/840924639223349250/879655572281106432/index.gif"@,
        nade_spec(Some("blue"@)) == "https://media.discordapp.net/attachments/840924639223349250/879655365522911262/index.gif"@,
        nade_spec(Some("green"@)) == "https://media.discordapp.net/attachments/840924639223349250/879655924258717717/index.gif"@,
        nade_spec(Some("yellow"@)) == "https://media.discordapp.net/attachments/907217028031578127/940637756642689074/index.gif"@,
        nade_spec(Some("gold"@)) == "https://media.discordapp.net/attachments/907217028031578127/940637756642689074/index.gif"@,
        nade_spec(Some("white"@)) == "https://media.discordapp.net/attachments/840924639223349250/923831999892955156/index.gif"@,
        nade_spec(Some("black"@)) == "https://cdn.discordapp.com/attachments/945894119513931846/945894299889958942/index.gif"@,
        nade_spec(Some("ukraine"@)) == "https://cdn.discordapp.com/attachments/945894119513931846/946312974715469824/index.gif"@,
        nade_spec(Some(c)) == "この色はありません"@ <==> !nade_offers(c),
{
    reveal_strlit("red");
    reveal_strlit("blue");
    reveal_strlit("green");
    reveal_strlit("yellow");
    reveal_strlit("gold");
    reveal_strlit("white");
    reveal_strlit("black");
    reveal_strlit("ukraine");
    reveal_strlit("https://cdn.discordapp.com/attachments/945894119513931846/945894299889958942/index.gif");
    reveal_strlit("https://cdn.discordapp.com/attachments/945894119513931846/946312974715469824/index.gif");
    reveal_strlit("https://media.discordapp.net/attachments/840924639223349250/879655365522911262/index.gif");
    reveal_strlit("https://media.discordapp.net/attachments/840924639223349250/879655572281106432/index.gif");
    reveal_strlit("https://media.discordapp.net/attachments/840924639223349250/879655924258717717/index.gif");
    reveal_strlit("https://media.discordapp.net/attachments/840924639223349250/923831999892955156/index.gif");
    reveal_strlit("https://media.discordapp.net/attachments/907217028031578127/940637756642689074/index.gif");
    reveal_strlit("この色はありません");
    assert("blue"@[0] != "red"@[0]);
    assert("green"@[0] != "red"@[0]);
    assert("green"@[0] != "blue"@[0]);
    assert("yellow"@[0] != "red"@[0]);
    assert("yellow"@[0] != "blue"@[0]);
    assert("yellow"@[0] != "green"@[0]);
    assert("gold"@[0] != "red"@[0]);
    assert("gold"@[0] != "blue"@[0]);
    assert("gold"@.len() != "green"@.len());
    assert("gold"@[0] != "yellow"@[0]);
    assert("white"@[0] != "red"@[0]);
    assert("white"@[0] != "blue"@[0]);
    assert("white"@[0] != "green"@[0]);
    assert("white"@[0] != "yellow"@[0]);
    assert("white"@[0] != "gold"@[0]);
    assert("black"@[0] != "red"@[0]);
    assert("black"@.len() != "blue"@.len());
    assert("black"@[0] != "green"@[0]);
    assert("black"@[0] != "yellow"@[0]);
    assert("black"@[0] != "gold"@[0]);
    assert("black"@[0] != "white"@[0]);
    assert("ukraine"@[0] != "red"@[0]);
    assert("ukraine"@[0] != "blue"@[0]);
    assert("ukraine"@[0] != "green"@[0]);
    assert("ukraine"@[0] != "yellow"@[0]);
    assert("ukraine"@[0] != "gold"@[0]);
    assert("ukraine"@[0] != "white"@[0]);
    assert("ukraine"@[0] != "black"@[0]);
    assert("https://cdn.discordapp.com/attachments/945894119513931846/945894299889958942/index.gif"@[0] != "この色はありません"@[0]);
    assert("https://cdn.discordapp.com/attachments/945894119513931846/946312974715469824/index.gif"@[0] != "この色はありません"@[0]);
    assert("https://media.discordapp.net/attachments/840924639223349250/879655365522911262/index.gif"@[0] != "この色はありません"@[0]);
    assert("https://media.discordapp.net/attachments/840924639223349250/879655572281106432/index.gif"@[0] != "この色はありません"@[0]);
    assert("https://media.discordapp.net/attachments/840924639223349250/879655924258717717/index.gif"@[0] != "この色はありません"@[0]);
    assert("https://media.discordapp.net/attachments/840924639223349250/923831999892955156/index.gif"@[0] != "この色はありません"@[0]);
    assert("https://media.discordapp.net/attachments/907217028031578127/940637756642689074/index.gif"@[0] != "この色はありません"@[0]);
}

/// What `/nade` answers for the given colour.
pub fn nade(color: Option<&str>) -> (res: &'static str)
    ensures
        res@ == nade_spec(
            match color {
                Some(c) => Some(c@),
                None => None,
            },
        ),
{
    match color {
        None => "https://media.discordapp.net/attachments/840924639223349250/879655572281106432/index.gif",
        Some(c) => if str_eq(c, "red") {
            "https://media.discordapp.net/attachments/840924639223349250/879655572281106432/index.gif"
        } else if str_eq(c, "blue") {
            "https://media.discordapp.net/attachments/840924639223349250/879655365522911262/index.gif"
        } else if str_eq(c, "green") {
            "https://media.discordapp.net/attachments/840924639223349250/879655924258717717/index.gif"
        } else if str_eq(c, "yellow") || str_eq(c, "gold") {
            "https://media.discordapp.net/attachments/907217028031578127/940637756642689074/index.gif"
        } else if str_eq(c, "white") {
            "https://media.discordapp.net/attachments/840924639223349250/923831999892955156/index.gif"
        } else if str_eq(c, "black") {
            "https://cdn.discordapp.com/attachments/945894119513931846/945894299889958942/index.gif"
        } else if str_eq(c, "ukraine") {
            "https://cdn.discordapp.com/attachments/945894119513931846/946312974715469824/index.gif"
        } else {
            "この色はありません"
        },
    }
}

pub open spec fn is_digit_spec(c: char) -> bool {
    '0' <= c <= '9'
}

/// The number that a string of decimal digits writes.
pub open spec fn digits_value(s: Seq<char>) -> nat
    decreases s.len(),
{
    if s.len() == 0 {
        0
    } else {
        digits_value(s.drop_last()) * 10 + ((s.last() as int - 48) as nat)
    }
}

/// Every character of `s` is a decimal digit.
pub open spec fn all_digits(s: Seq<char>) -> bool {
    forall|i: int| 0 <= i < s.len() ==> is_digit_spec(#[trigger] s[i])
}

/// `s` without the leading `+` it may have.
pub open spec fn unsigned_body(s: Seq<char>) -> Seq<char> {
    if s.len() > 0 && s[0] == '+' {
        s.drop_first()
    } else {
        s
    }
}

/// std's `u64::from_str`: an optional `+`, then one or more decimal digits
/// writing a number that fits in a `u64`.
pub open spec fn parse_u64_spec(s: Seq<char>) -> Option<u64> {
    let body = unsigned_body(s);
    if body.len() > 0 && all_digits(body) && digits_value(body) <= u64::MAX {
        Some(digits_value(body) as u64)
    } else {
        None
    }
}

proof fn lemma_digits_value_take(s: Seq<char>, i: int)
    requires
        0 <= i < s.len(),
    ensures
        digits_value(s.take(i + 1)) == digits_value(s.take(i)) * 10 + ((s[i] as int - 48) as nat),
{
    assert(s.take(i + 1).drop_last() == s.take(i));
}

proof fn lemma_digits_value_grows(s: Seq<char>, i: int)
    requires
        0 <= i <= s.len(),
        forall|k: int| 0 <= k < s.len() ==> is_digit_spec(#[trigger] s[k]),
    ensures
        digits_value(s.take(i)) <= digits_value(s),
    decreases s.len() - i,
{
    if i < s.len() {
        lemma_digits_value_take(s, i);
        lemma_digits_value_grows(s, i + 1);
    } else {
        assert(s.take(i) == s);
    }
}

/// Reads an unsigned decimal number, as `str::parse::<u64>` does.
pub fn parse_u64(s: &str) -> (res: Option<u64>)
    ensures
        res == parse_u64_spec(s@),
{
    let cs = chars_of(s);
    let start: usize = if cs.len() > 0 && cs[0] == '+' {
        1
    } else {
        0
    };
    let ghost body = unsigned_body(s@);
    assert(body == cs@.skip(start as int));
    if start >= cs.len() {
        return None;
    }
    let mut acc: u64 = 0;
    let mut i: usize = start;
    assert(body.take(0) =~= Seq::<char>::empty());
    while i < cs.len()
        invariant
            start <= i <= cs@.len(),
            cs@ == s@,
            body == cs@.skip(start as int),
            body == unsigned_body(s@),
            forall|k: int| 0 <= k < i - start ==> is_digit_spec(#[trigger] body[k]),
            acc == digits_value(body.take(i - start)),
        decreases cs.len() - i,
    {
        let c = cs[i];
        assert(body[i - start] == c);
        if !('0' <= c && c <= '9') {
            assert(!is_digit_spec(body[i - start]));
            assert(!all_digits(body));
            return None;
        }
        let d: u64 = (c as u32 - 48) as u64;
        proof {
            lemma_digits_value_take(body, i - start);
        }
        if acc > (u64::MAX - d) / 10 {
            proof {
                assert(acc * 10 + d > u64::MAX) by (nonlinear_arith)
                    requires
                        acc > (u64::MAX - d) / 10,
                        d < 10,
                ;
                if all_digits(body) {
                    lemma_digits_value_grows(body, i - start + 1);
                    assert(digits_value(body) > u64::MAX);
                }
            }
            return None;
        }
        assert(acc * 10 + d <= u64::MAX) by (nonlinear_arith)
            requires
                acc <= (u64::MAX - d) / 10,
                d < 10,
        ;
        acc = acc * 10 + d;
        i += 1;
    }
    assert(body.take(i - start) == body);
    Some(acc)
}

proof fn lemma_decimal_digits(n: nat)
    ensures
        decimal_spec(n).len() > 0,
        all_digits(decimal_spec(n)),
        digits_value(decimal_spec(n)) == n,
    decreases n,
{
    if n >= 10 {
        lemma_decimal_digits(n / 10);
        let s = decimal_spec(n);
        assert(s.drop_last() == decimal_spec(n / 10));
        assert(s.last() == digit_spec((n % 10) as int));
        assert(digit_spec((n % 10) as int) as int == 48 + n % 10);
        assert(digits_value(s) == digits_value(s.drop_last()) * 10 + ((s.last() as int - 48) as nat));
        assert(n == (n / 10) * 10 + n % 10);
        assert forall|i: int| 0 <= i < s.len() implies is_digit_spec(#[trigger] s[i]) by {
            if i < s.len() - 1 {
                assert(s[i] == decimal_spec(n / 10)[i]);
            }
        }
    } else {
        assert(digit_spec(n as int) as int == 48 + n);
        let s = decimal_spec(n);
        assert(s.drop_last() =~= Seq::<char>::empty());
        assert(digits_value(s.drop_last()) == 0);
    }
}

/// A user id written in decimal, as the mute list stores it, reads back as
/// the same id.
pub proof fn law_parse_decimal_round_trip(id: u64)
    ensures
        parse_u64_spec(decimal_spec(id as nat)) == Some(id),
{
    lemma_decimal_digits(id as nat);
    let s = decimal_spec(id as nat);
    assert(s[0] != '+') by {
        assert(is_digit_spec(s[0]));
    }
    assert(unsigned_body(s) == s);
}

/// The ids of the muted users, as the mute list's rows give them: rows that do
/// not read as a number are left out.
pub open spec fn muted_ids_spec(rows: Seq<Seq<char>>) -> Seq<u64>
    decreases rows.len(),
{
    if rows.len() == 0 {
        Seq::empty()
    } else {
        let rest = muted_ids_spec(rows.drop_last());
        match parse_u64_spec(rows.last()) {
            Some(id) => rest.push(id),
            None => rest,
        }
    }
}

/// The mute list is read row by row, in order: a row that reads as a number
/// gives that id, any other row nothing, and the ids of two lists of rows one
/// after the other are those of the first, then those of the second.
pub proof fn law_muted_ids_row_by_row(a: Seq<Seq<char>>, b: Seq<Seq<char>>, row: Seq<char>)
    ensures
        muted_ids_spec(seq![row]) == (match parse_u64_spec(row) {
            Some(id) => seq![id],
            None => Seq::<u64>::empty(),
        }),
        muted_ids_spec(a + b) == muted_ids_spec(a) + muted_ids_spec(b),
    decreases b.len(),
{
    assert(seq![row].drop_last() =~= Seq::<Seq<char>>::empty());
    assert(seq![row].last() == row);
    assert(muted_ids_spec(Seq::<Seq<char>>::empty()) == Seq::<u64>::empty());
    if let Some(id) = parse_u64_spec(row) {
        assert(Seq::<u64>::empty().push(id) =~= seq![id]);
    }
    if b.len() == 0 {
        assert(a + b =~= a);
        assert(muted_ids_spec(a) + Seq::<u64>::empty() =~= muted_ids_spec(a));
    } else {
        law_muted_ids_row_by_row(a, b.drop_last(), row);
        assert((a + b).drop_last() =~= a + b.drop_last());
        assert((a + b).last() == b.last());
        if let Some(id) = parse_u64_spec(b.last()) {
            assert(muted_ids_spec(a) + muted_ids_spec(b.drop_last()).push(id) =~= (muted_ids_spec(a)
                + muted_ids_spec(b.drop_last())).push(id));
        }
    }
}

/// Reads the user ids stored in the mute list.
pub fn muted_ids(rows: &Vec<String>) -> (res: Vec<u64>)
    ensures
        res@ == muted_ids_spec(rows@.map_values(|r: String| r@)),
{
    let ghost views = rows@.map_values(|r: String| r@);
    let mut res: Vec<u64> = Vec::new();
    for i in 0..rows.len()
        invariant
            views == rows@.map_values(|r: String| r@),
            res@ == muted_ids_spec(views.take(i as int)),
    {
        let parsed = parse_u64(rows[i].as_str());
        assert(views.take(i + 1).drop_last() == views.take(i as int));
        assert(views.take(i + 1).last() == rows@[i as int]@);
        if let Some(id) = parsed {
            res.push(id);
        }
    }
    assert(views.take(rows.len() as int) == views);
    res
}

/// The mute list as the bot shows it: each user's mention on a line of its own.
pub open spec fn mute_list_spec(ids: Seq<u64>) -> Seq<char>
    decreases ids.len(),
{
    if ids.len() == 0 {
        Seq::empty()
    } else {
        mute_list_spec(ids.drop_last()) + user_mention_spec(ids.last()) + "\n"@
    }
}

/// The mute list shows the users one by one, in order: each user's mention
/// followed by a line break, and the list of two lists of users one after
/// the other is the first list's text followed by the second's.
pub proof fn law_mute_list_line_by_line(a: Seq<u64>, b: Seq<u64>, id: u64)
    ensures
        mute_list_spec(seq![id]) == user_mention_spec(id) + "\n"@,
        mute_list_spec(a + b) == mute_list_spec(a) + mute_list_spec(b),
    decreases b.len(),
{
    assert(seq![id].drop_last() =~= Seq::<u64>::empty());
    assert(mute_list_spec(Seq::<u64>::empty()) + user_mention_spec(id) + "\n"@ =~= user_mention_spec(
        id,
    ) + "\n"@);
    if b.len() == 0 {
        assert(a + b =~= a);
        assert(mute_list_spec(a) + Seq::<char>::empty() =~= mute_list_spec(a));
    } else {
        law_mute_list_line_by_line(a, b.drop_last(), id);
        assert((a + b).drop_last() =~= a + b.drop_last());
        assert((a + b).last() == b.last());
        assert(mute_list_spec(a) + (mute_list_spec(b.drop_last()) + user_mention_spec(b.last())
            + "\n"@) =~= mute_list_spec(a) + mute_list_spec(b.drop_last()) + user_mention_spec(
            b.last(),
        ) + "\n"@);
    }
}

pub fn mute_list_text(ids: &Vec<u64>) -> (res: String)
    ensures
        res@ == mute_list_spec(ids@),
{
    let mut res = String::new();
    for i in 0..ids.len()
        invariant
            res@ == mute_list_spec(ids@.take(i as int)),
    {
        push_user_mention(&mut res, ids[i]);
        res.append("\n");
        assert(ids@.take(i + 1).drop_last() == ids@.take(i as int));
    }
    assert(ids@.take(ids.len() as int) == ids@);
    res
}

/// Cuts `s` after every `sep`, keeping the separator at the end of its piece;
/// a trailing piece without separator is kept unless it is empty (std's
/// `str::split_inclusive`). The pieces so far, and the unfinished piece.
pub open spec fn split_acc(s: Seq<char>, sep: char) -> (Seq<Seq<char>>, Seq<char>)
    decreases s.len(),
{
    if s.len() == 0 {
        (Seq::empty(), Seq::empty())
    } else {
        let (pieces, cur) = split_acc(s.drop_last(), sep);
        let cur2 = cur.push(s.last());
        if s.last() == sep {
            (pieces.push(cur2), Seq::empty())
        } else {
            (pieces, cur2)
        }
    }
}

pub open spec fn split_inclusive_spec(s: Seq<char>, sep: char) -> Seq<Seq<char>> {
    let (pieces, cur) = split_acc(s, sep);
    if cur.len() > 0 {
        pieces.push(cur)
    } else {
        pieces
    }
}

/// The role arguments of `give_role`: the text cut after every `>`, each piece
/// trimmed of white space.
pub open spec fn role_arguments_spec(s: Seq<char>) -> Seq<Seq<char>> {
    split_inclusive_spec(s, '>').map_values(|p: Seq<char>| trim_spec(p))
}

pub fn role_arguments(roles: &str) -> (res: Vec<String>)
    ensures
        res@.map_values(|r: String| r@) == role_arguments_spec(roles@),
{
    let cs = chars_of(roles);
    let mut pieces: Vec<Vec<char>> = Vec::new();
    let mut cur: Vec<char> = Vec::new();
    for i in 0..cs.len()
        invariant
            cs@ == roles@,
            pieces@.map_values(|p: Vec<char>| p@) == split_acc(cs@.take(i as int), '>').0,
            cur@ == split_acc(cs@.take(i as int), '>').1,
    {
        assert(cs@.take(i + 1).drop_last() == cs@.take(i as int));
        cur.push(cs[i]);
        if cs[i] == '>' {
            let done = cur;
            cur = Vec::new();
            pieces.push(done);
        }
        assert(pieces@.map_values(|p: Vec<char>| p@) =~= split_acc(cs@.take(i + 1), '>').0);
    }
    assert(cs@.take(cs.len() as int) == cs@);
    if cur.len() > 0 {
        pieces.push(cur);
    }
    let ghost whole = split_inclusive_spec(roles@, '>');
    assert(pieces@.map_values(|p: Vec<char>| p@) =~= whole);
    let mut res: Vec<String> = Vec::new();
    for k in 0..pieces.len()
        invariant
            pieces@.map_values(|p: Vec<char>| p@) == whole,
            res@.len() == k,
            forall|j: int| 0 <= j < k ==> #[trigger] res@[j]@ == trim_spec(whole[j]),
    {
        let t = trim_chars(&pieces[k]);
        assert(pieces@[k as int]@ == whole[k as int]);
        res.push(string_of(&t));
    }
    assert(res@.map_values(|r: String| r@) =~= role_arguments_spec(roles@));
    res
}

/// The regional indicator letter at position `i` of the alphabet (🇦 for 0).
pub open spec fn regional_indicator(i: int) -> char {
    ((0x1F1E6 + i) as u32) as char
}

/// The choices of a role panel: the roles, each with a regional indicator
/// letter from 🇦 on; roles past the 26th letter are left out.
pub open spec fn role_choices_spec(roles: Seq<u64>) -> Seq<(char, u64)> {
    let n: int = if roles.len() < 26 {
        roles.len() as int
    } else {
        26
    };
    Seq::new(n as nat, |i: int| (regional_indicator(i), roles[i]))
}

pub fn role_choices(roles: &Vec<u64>) -> (res: Vec<(char, u64)>)
    ensures
        res@ == role_choices_spec(roles@),
{
    let n: usize = if roles.len() < 26 {
        roles.len()
    } else {
        26
    };
    let mut res: Vec<(char, u64)> = Vec::new();
    for i in 0..n
        invariant
            n <= roles@.len(),
            n <= 26,
            res@ == role_choices_spec(roles@).take(i as int),
    {
        let x: u32 = 0x1F1E6 + i as u32;
        let c = match char_from_u32(x) {
            Some(c) => c,
            None => {
                assert(false);
                ' '
            },
        };
        proof {
            vstd::utf8::char_u32_cast(c, x);
        }
        assert(c == regional_indicator(i as int));
        res.push((c, roles[i]));
        assert(res@ =~= role_choices_spec(roles@).take(i + 1));
    }
    assert(role_choices_spec(roles@).take(n as int) =~= role_choices_spec(roles@));
    res
}

/// A role panel offers the first 26 roles, in order, each with a letter of
/// its own: the letters are 🇦, 🇧, … in turn, so no two choices share a
/// reaction.
pub proof fn law_role_choices_letters(roles: Seq<u64>)
    ensures
        role_choices_spec(roles).len() == if roles.len() < 26 {
            roles.len() as int
        } else {
            26
        },
        forall|i: int|
            0 <= i < role_choices_spec(roles).len() ==> (#[trigger] role_choices_spec(roles)[i]).1
                == roles[i] && role_choices_spec(roles)[i].0 as u32 == 0x1F1E6 + i,
        forall|i: int, j: int|
            0 <= i < j < role_choices_spec(roles).len() ==> (#[trigger] role_choices_spec(roles)[i]).0
                != (#[trigger] role_choices_spec(roles)[j]).0,
{
    assert forall|i: int| 0 <= i < role_choices_spec(roles).len() implies (
    #[trigger] role_choices_spec(roles)[i]).1 == roles[i] && role_choices_spec(roles)[i].0 as u32
        == 0x1F1E6 + i by {
        let x: u32 = (0x1F1E6 + i) as u32;
        assert(((x as char) as u32) == x);
    }
}

/// One line of a role panel: the letter, a colon and the role's mention.
pub open spec fn choice_line(choice: (char, u64)) -> Seq<char> {
    seq![choice.0] + ": "@ + role_mention_spec(choice.1)
}

/// The lines of a role panel, joined by line breaks.
pub open spec fn role_panel_spec(choices: Seq<(char, u64)>) -> Seq<char>
    decreases choices.len(),
{
    if choices.len() == 0 {
        Seq::empty()
    } else if choices.len() == 1 {
        choice_line(choices[0])
    } else {
        role_panel_spec(choices.drop_last()) + "\n"@ + choice_line(choices.last())
    }
}

/// The text of a role panel.
pub fn role_panel_text(choices: &Vec<(char, u64)>) -> (res: String)
    ensures
        res@ == role_panel_spec(choices@),
{
    let mut res = String::new();
    for i in 0..choices.len()
        invariant
            res@ == role_panel_spec(choices@.take(i as int)),
    {
        assert(choices@.take(i + 1).drop_last() == choices@.take(i as int));
        if i > 0 {
            res.append("\n");
        }
        let (c, role) = choices[i];
        let ghost before = res@;
        push_char(&mut res, c);
        res.append(": ");
        push_role_mention(&mut res, role);
        proof {
            if i == 0 {
                assert(choices@.take(1)[0] == choices@[0]);
                assert(res@ =~= choice_line(choices@[0]));
            } else {
                assert(res@ =~= before + choice_line(choices@[i as int]));
            }
        }
    }
    assert(choices@.take(choices.len() as int) == choices@);
    res
}

/// The colour of a role panel: yellow when several roles may be taken, cyan
/// otherwise.
pub fn role_panel_color(allow_multiple: bool) -> (res: u32)
    ensures
        res == (if allow_multiple {
            0xFFFF00u32
        } else {
            0x00FFFFu32
        }),
{
    if allow_multiple {
        0xFFFF00
    } else {
        0x00FFFF
    }
}

/// The reaction of a role panel's choice: its letter as a string.
pub fn choice_reaction(c: char) -> (res: String)
    ensures
        res@ == seq![c],
{
    let mut s = String::new();
    push_char(&mut s, c);
    s
}

/// The answer of `twitter set`: where to log in.
pub fn login_prompt(url: &str) -> (res: String)
    ensures
        res@ == "ここで認証してください:\n"@ + url@,
{
    let mut s = String::new();
    s.append("ここで認証してください:\n");
    s.append(url);
    s
}

} // verus!
