//! Inline hints for the interactive prompt: the usage line of each command,
//! shown as the user types its first words.
use vstd::prelude::*;
use vstd::string::*;
use vstd::utf8::{encode_utf8, is_ascii_chars, is_char_boundary};
use crate::wire::starts_with;

verus! {

/// The UTF-8 bytes of a string.
pub open spec fn utf8(s: Seq<char>) -> Seq<u8> {
    encode_utf8(s)
}

/// One hint: the text shown, and how many of its leading bytes a completion
/// accepts.
#[derive(Hash, Debug, PartialEq, Eq)]
pub struct CMDHint {
    pub display: String,
    pub complete_up_to: usize,
}

/// `a - b`, or 0 when `b` is larger.
pub open spec fn saturating_sub(a: nat, b: nat) -> nat {
    if a >= b {
        (a - b) as nat
    } else {
        0
    }
}

/// Whether hint `h` matches what the user has typed, `line`, with the cursor
/// at byte `pos`: the hint begins with the line, and `pos` falls on a
/// character boundary of the hint.
pub open spec fn hint_matches(h: CMDHint, line: Seq<char>, pos: nat) -> bool {
    &&& utf8(line).is_prefix_of(utf8(h.display@))
    &&& pos <= utf8(h.display@).len()
    &&& is_char_boundary(utf8(h.display@), pos as int)
}

impl CMDHint {
    /// A hint showing `text`, whose completion takes it up to the end of
    /// `complete_up_to`, which must begin it.
    pub fn new(text: &str, complete_up_to: &str) -> (r: CMDHint)
        requires
            complete_up_to@.is_prefix_of(text@),
        ensures
            r.display@ == text@,
            r.complete_up_to == complete_up_to.len(),
    {
        CMDHint { display: text.to_owned(), complete_up_to: complete_up_to.len() }
    }

    /// The rest of the hint after its first `strip_chars` bytes, which must
    /// end on a character boundary.
    pub fn suffix(&self, strip_chars: usize) -> (r: CMDHint)
        requires
            is_char_boundary(utf8(self.display@), strip_chars as int),
        ensures
            utf8(r.display@) == utf8(self.display@).subrange(
                strip_chars as int,
                utf8(self.display@).len() as int,
            ),
            r.complete_up_to == saturating_sub(self.complete_up_to as nat, strip_chars as nat),
    {
        let s = self.display.as_str();
        let (_, rest) = s.split_at(strip_chars);
        let up_to: usize = if self.complete_up_to >= strip_chars {
            self.complete_up_to - strip_chars
        } else {
            0
        };
        CMDHint { display: rest.to_owned(), complete_up_to: up_to }
    }
}

/// The hints offered at the prompt, in the order they are tried. The table
/// holds no two hints with the same completion (see `lemma_hint_table`).
pub struct CMDHinter {
    pub hints: Vec<CMDHint>,
}

impl CMDHinter {
    /// The hint for the line typed so far, with the cursor at byte `pos`: none
    /// for an empty line or a cursor before its end; else the rest, after
    /// `pos`, of the first hint that the line begins.
    pub fn hint(&self, line: &str, pos: usize) -> (r: Option<CMDHint>)
        ensures
            line.len() == 0 || pos < line.len() ==> r is None,
            !(line.len() == 0 || pos < line.len()) ==> match r {
                None => forall|i: int|
                    0 <= i < self.hints@.len() ==> !hint_matches(
                        #[trigger] self.hints@[i],
                        line@,
                        pos as nat,
                    ),
                Some(h) => exists|i: int|
                    0 <= i < self.hints@.len() && hint_matches(self.hints@[i], line@, pos as nat)
                        && (forall|j: int|
                        0 <= j < i ==> !hint_matches(#[trigger] self.hints@[j], line@, pos as nat))
                        && utf8(h.display@) == utf8(self.hints@[i].display@).subrange(
                        pos as int,
                        utf8(self.hints@[i].display@).len() as int,
                    ) && h.complete_up_to == saturating_sub(
                        self.hints@[i].complete_up_to as nat,
                        pos as nat,
                    ),
            },
    {
        if line.len() == 0 || pos < line.len() {
            return None;
        }
        let mut i: usize = 0;
        while i < self.hints.len()
            invariant
                i <= self.hints@.len(),
                !(line.len() == 0 || pos < line.len()),
                forall|j: int|
                    0 <= j < i ==> !hint_matches(#[trigger] self.hints@[j], line@, pos as nat),
            decreases self.hints@.len() - i,
        {
            let h = &self.hints[i];
            let shown = h.display.as_str();
            if starts_with(shown.as_bytes(), line.as_bytes()) && shown.is_char_boundary(pos) {
                proof {
                    vstd::utf8::encode_utf8_valid_utf8(h.display@);
                }
                return Some(h.suffix(pos));
            }
            proof {
                vstd::utf8::encode_utf8_valid_utf8(h.display@);
            }
            i = i + 1;
        }
        None
    }
}

/// What a hint shows, and how many bytes its completion takes.
pub open spec fn hint_view(h: CMDHint) -> (Seq<char>, nat) {
    (h.display@, h.complete_up_to as nat)
}

pub open spec fn hints_view(hints: Seq<CMDHint>) -> Seq<(Seq<char>, nat)> {
    hints.map_values(|h: CMDHint| hint_view(h))
}

/// A table of hints, each given as the text shown and the leading part of it
/// that a completion takes, seen as text and completion length.
pub open spec fn with_lengths(table: Seq<(Seq<char>, Seq<char>)>) -> Seq<(Seq<char>, nat)> {
    table.map_values(|e: (Seq<char>, Seq<char>)| (e.0, e.1.len()))
}

/// The hints of the key/value commands.
pub open spec fn key_value_table() -> Seq<(Seq<char>, Seq<char>)> {
    seq![
        ("get <key>"@, "get "@),
        ("gets <key>"@, "gets "@),
        ("mget <lenkeys> <numkeys>\n<\"space separated keys\">"@, "mget "@),
        ("mgets <lenkeys> <numkeys>\n<\"space separated keys\">"@, "mgets "@),
        ("set <key> <flags> <exptime> <bytes> [noreply]\n<data>"@, "set "@),
        ("cas <key> <flags> <exptime> <bytes> [noreply]\n<data>"@, "cas "@),
        ("add <key> <flags> <exptime> <bytes> [noreply]\n<data>"@, "add "@),
        ("append <key> <flags> <exptime> <bytes> [noreply]\n<data>"@, "append "@),
        ("prepend <key> <flags> <exptime> <bytes> [noreply]\n<data>"@, "prepend "@),
        ("replace <key> <flags> <exptime> <bytes> [noreply]\n<data>"@, "replace "@),
        ("delete <key> [noreply]"@, "delete "@),
        ("incr <key> <delta> [<flags> <exptime> <initial>] [noreply]"@, "incr "@),
        ("decr <key> <delta> [<flags> <exptime> <initial>] [noreply]"@, "decr "@),
    ]
}

/// The hints of the list commands.
pub open spec fn list_table() -> Seq<(Seq<char>, Seq<char>)> {
    seq![
        ("lop create <key> <attributes> [noreply]\n* attributes: <flags> <exptime> <maxcount> [<ovflaction>] [unreadable]"@, "lop create "@),
        ("lop insert <key> <index> <bytes> [create <attributes>] [noreply|pipe]\n* attributes: <flags> <exptime> <maxcount> [<ovflaction>] [unreadable]\n<data>"@, "lop insert "@),
        ("lop delete <key> <index or \"index range\"> [drop] [noreply|pipe]"@, "lop delete "@),
        ("lop get <key> <index or \"index range\"> [delete|drop]"@, "lop get "@),
    ]
}

/// The hints of the set commands.
pub open spec fn set_table() -> Seq<(Seq<char>, Seq<char>)> {
    seq![
        ("sop create <key> <attributes> [noreply]\n* <attributes>: <flags> <exptime> <maxcount> [<ovflaction>] [unreadable]"@, "sop create "@),
        ("sop insert <key> <bytes> [create <attributes>] [noreply|pipe]\n* <attributes>: <flags> <exptime> <maxcount> [<ovflaction>] [unreadable]\n<data>"@, "sop insert "@),
        ("sop delete <key> <bytes> [drop] [noreply|pipe]\n<data>"@, "sop delete "@),
        ("sop get <key> <count> [delete|drop]"@, "sop get "@),
        ("sop exist <key> <bytes> [pipe]\n<data>"@, "sop exist "@),
    ]
}

/// The hints of the map commands.
pub open spec fn map_table() -> Seq<(Seq<char>, Seq<char>)> {
    seq![
        ("mop create <key> <attributes> [noreply]\n* <attributes>: <flags> <exptime> <maxcount> [<ovflaction>] [unreadable]"@, "mop create "@),
        ("mop insert <key> <field> <bytes> [create <attributes>] [noreply|pipe]\n* <attributes>: <flags> <exptime> <maxcount> [<ovflaction>] [unreadable]\n<data>"@, "mop insert "@),
        ("mop update <key> <field> <bytes> [noreply|pipe]\n<data>"@, "mop update "@),
        ("mop delete <key> <lenfields> <numfields> [drop] [noreply|pipe]\n[<\"space separated fields\">]"@, "mop delete "@),
        ("mop get <key> <lenfields> <numfields> [delete|drop]\n[<\"space separated fields\">]\n"@, "mop get "@),
    ]
}

/// The hints of the B-tree commands.
pub open spec fn btree_table() -> Seq<(Seq<char>, Seq<char>)> {
    seq![
        ("bop create <key> <attributes> [noreply]"@, "bop create "@),
        ("bop insert <key> <bkey> [<eflag>] <bytes> [create <attributes>] [noreply|pipe|getrim]\n* attributes: <flags> <exptime> <maxcount> [<ovflaction>] [unreadable]\n<data>"@, "bop insert "@),
        ("bop upsert <key> <bkey> [<eflag>] <bytes> [create <attributes>] [noreply|pipe|getrim]\n* attributes: <flags> <exptime> <maxcount> [<ovflaction>] [unreadable]\n<data>"@, "bop upsert "@),
        ("bop update <key> <bkey> [<eflag_update>] <bytes> [noreply|pipe]\n* eflag_update : [<fwhere> <bitwop>] <fvalue>\n[<data>]"@, "bop update "@),
        ("bop delete <key> <bkey or \"bkey range\"> [<eflag_filter>] [<count>] [drop] [noreply|pipe]\n* <eflag_filter> : <fwhere> [<bitwop> <foperand>] <compop> <fvalue>"@, "bop delete "@),
        ("bop get <key> <bkey or \"bkey range\"> [<eflag_filter>] [[<offset>] <count>] [delete|drop]\n* <eflag_filter> : <fwhere> [<bitwop> <foperand>] <compop> <fvalue>"@, "bop get "@),
        ("bop count <key> <bkey or \"bkey range\"> [<eflag_filter>]\n* <eflag_filter> : <fwhere> [<bitwop> <foperand>] <compop> <fvalue>"@, "bop count "@),
        ("bop incr <key> <bkey> <delta> [<initial> [<eflag>]] [noreply|pipe]"@, "bop incr "@),
        ("bop decr <key> <bkey> <delta> [<initial> [<eflag>]] [noreply|pipe]"@, "bop decr "@),
        ("bop mget <lenkeys> <numkeys> <bkey or \"bkey range\"> [<eflag_filter>] [<offset>] <count>\n* <eflag_filter> : <fwhere> [<bitwop> <foperand>] <compop> <fvalue>\n<\"space separated keys\">"@, "bop mget "@),
        ("bop smget <lenkeys> <numkeys> <bkey or \"bkey range\"> [<eflag_filter>] <count> [duplicate|unique]\n* <eflag_filter> : <fwhere> [<bitwop> <foperand>] <compop> <fvalue>\n<\"space separated keys\">"@, "bop smget "@),
        ("bop position <key> <bkey> <order>\n* <order> = asc | desc"@, "bop position "@),
        ("bop gbp <key> <order> <position or \"position range\">\n"@, "bop gbp "@),
        ("bop pwg <key> <bkey> <order> [<count>]\n* <order> = asc | desc"@, "bop pwg "@),
    ]
}

/// In every entry of `table`, the completion is a leading part of the text.
pub open spec fn completions_lead(table: Seq<(Seq<char>, Seq<char>)>) -> bool {
    forall|i: int| 0 <= i < table.len() ==> (#[trigger] table[i]).1.is_prefix_of(table[i].0)
}

/// The hints of all commands, in the order they are tried.
pub open spec fn hint_table() -> Seq<(Seq<char>, Seq<char>)> {
    key_value_table() + list_table() + set_table() + map_table() + btree_table()
}

/// The completion that hint `i` of the table takes.
pub open spec fn completion_of(i: int) -> Seq<char> {
    hint_table()[i].1
}

/// Each completion in the table is a run of whole leading words: it is not
/// empty, it ends in a space and it holds no `<`. No two hints share a
/// completion, so each command has one hint.
pub proof fn lemma_hint_table()
    ensures
        hint_table().len() == 41,
        forall|i: int|
            0 <= i < hint_table().len() ==> {
                let p = #[trigger] completion_of(i);
                &&& p.len() > 0
                &&& p.last() == ' '
                &&& forall|k: int| 0 <= k < p.len() ==> p[k] != '<'
            },
        forall|i: int, j: int|
            0 <= i < j < hint_table().len() ==> #[trigger] completion_of(i) != #[trigger] completion_of(j),
{
    reveal_strlit("get ");
    reveal_strlit("gets ");
    reveal_strlit("mget ");
    reveal_strlit("mgets ");
    reveal_strlit("set ");
    reveal_strlit("cas ");
    reveal_strlit("add ");
    reveal_strlit("append ");
    reveal_strlit("prepend ");
    reveal_strlit("replace ");
    reveal_strlit("delete ");
    reveal_strlit("incr ");
    reveal_strlit("decr ");
    reveal_strlit("lop create ");
    reveal_strlit("lop insert ");
    reveal_strlit("lop delete ");
    reveal_strlit("lop get ");
    reveal_strlit("sop create ");
    reveal_strlit("sop insert ");
    reveal_strlit("sop delete ");
    reveal_strlit("sop get ");
    reveal_strlit("sop exist ");
    reveal_strlit("mop create ");
    reveal_strlit("mop insert ");
    reveal_strlit("mop update ");
    reveal_strlit("mop delete ");
    reveal_strlit("mop get ");
    reveal_strlit("bop create ");
    reveal_strlit("bop insert ");
    reveal_strlit("bop upsert ");
    reveal_strlit("bop update ");
    reveal_strlit("bop delete ");
    reveal_strlit("bop get ");
    reveal_strlit("bop count ");
    reveal_strlit("bop incr ");
    reveal_strlit("bop decr ");
    reveal_strlit("bop mget ");
    reveal_strlit("bop smget ");
    reveal_strlit("bop position ");
    reveal_strlit("bop gbp ");
    reveal_strlit("bop pwg ");
    assert(hint_table().len() == 41);
    // The length and the characters at 0, 4 and 6 tell the completions
    // apart; naming them gives the solver a difference for every pair.
    assert(completion_of(0) == "get "@);
    assert(completion_of(0).len() == 4 && completion_of(0)[0] == 'g');
    assert(completion_of(1) == "gets "@);
    assert(completion_of(1).len() == 5 && completion_of(1)[0] == 'g' && completion_of(1)[4] == ' ');
    assert(completion_of(2) == "mget "@);
    assert(completion_of(2).len() == 5 && completion_of(2)[0] == 'm' && completion_of(2)[4] == ' ');
    assert(completion_of(3) == "mgets "@);
    assert(completion_of(3).len() == 6 && completion_of(3)[0] == 'm' && completion_of(3)[4] == 's');
    assert(completion_of(4) == "set "@);
    assert(completion_of(4).len() == 4 && completion_of(4)[0] == 's');
    assert(completion_of(5) == "cas "@);
    assert(completion_of(5).len() == 4 && completion_of(5)[0] == 'c');
    assert(completion_of(6) == "add "@);
    assert(completion_of(6).len() == 4 && completion_of(6)[0] == 'a');
    assert(completion_of(7) == "append "@);
    assert(completion_of(7).len() == 7 && completion_of(7)[0] == 'a' && completion_of(7)[4] == 'n' && completion_of(7)[6] == ' ');
    assert(completion_of(8) == "prepend "@);
    assert(completion_of(8).len() == 8 && completion_of(8)[0] == 'p' && completion_of(8)[4] == 'e' && completion_of(8)[6] == 'd');
    assert(completion_of(9) == "replace "@);
    assert(completion_of(9).len() == 8 && completion_of(9)[0] == 'r' && completion_of(9)[4] == 'a' && completion_of(9)[6] == 'e');
    assert(completion_of(10) == "delete "@);
    assert(completion_of(10).len() == 7 && completion_of(10)[0] == 'd' && completion_of(10)[4] == 't' && completion_of(10)[6] == ' ');
    assert(completion_of(11) == "incr "@);
    assert(completion_of(11).len() == 5 && completion_of(11)[0] == 'i' && completion_of(11)[4] == ' ');
    assert(completion_of(12) == "decr "@);
    assert(completion_of(12).len() == 5 && completion_of(12)[0] == 'd' && completion_of(12)[4] == ' ');
    assert(completion_of(13) == "lop create "@);
    assert(completion_of(13).len() == 11 && completion_of(13)[0] == 'l' && completion_of(13)[4] == 'c' && completion_of(13)[6] == 'e');
    assert(completion_of(14) == "lop insert "@);
    assert(completion_of(14).len() == 11 && completion_of(14)[0] == 'l' && completion_of(14)[4] == 'i' && completion_of(14)[6] == 's');
    assert(completion_of(15) == "lop delete "@);
    assert(completion_of(15).len() == 11 && completion_of(15)[0] == 'l' && completion_of(15)[4] == 'd' && completion_of(15)[6] == 'l');
    assert(completion_of(16) == "lop get "@);
    assert(completion_of(16).len() == 8 && completion_of(16)[0] == 'l' && completion_of(16)[4] == 'g' && completion_of(16)[6] == 't');
    assert(completion_of(17) == "sop create "@);
    assert(completion_of(17).len() == 11 && completion_of(17)[0] == 's' && completion_of(17)[4] == 'c' && completion_of(17)[6] == 'e');
    assert(completion_of(18) == "sop insert "@);
    assert(completion_of(18).len() == 11 && completion_of(18)[0] == 's' && completion_of(18)[4] == 'i' && completion_of(18)[6] == 's');
    assert(completion_of(19) == "sop delete "@);
    assert(completion_of(19).len() == 11 && completion_of(19)[0] == 's' && completion_of(19)[4] == 'd' && completion_of(19)[6] == 'l');
    assert(completion_of(20) == "sop get "@);
    assert(completion_of(20).len() == 8 && completion_of(20)[0] == 's' && completion_of(20)[4] == 'g' && completion_of(20)[6] == 't');
    assert(completion_of(21) == "sop exist "@);
    assert(completion_of(21).len() == 10 && completion_of(21)[0] == 's' && completion_of(21)[4] == 'e' && completion_of(21)[6] == 'i');
    assert(completion_of(22) == "mop create "@);
    assert(completion_of(22).len() == 11 && completion_of(22)[0] == 'm' && completion_of(22)[4] == 'c' && completion_of(22)[6] == 'e');
    assert(completion_of(23) == "mop insert "@);
    assert(completion_of(23).len() == 11 && completion_of(23)[0] == 'm' && completion_of(23)[4] == 'i' && completion_of(23)[6] == 's');
    assert(completion_of(24) == "mop update "@);
    assert(completion_of(24).len() == 11 && completion_of(24)[0] == 'm' && completion_of(24)[4] == 'u' && completion_of(24)[6] == 'd');
    assert(completion_of(25) == "mop delete "@);
    assert(completion_of(25).len() == 11 && completion_of(25)[0] == 'm' && completion_of(25)[4] == 'd' && completion_of(25)[6] == 'l');
    assert(completion_of(26) == "mop get "@);
    assert(completion_of(26).len() == 8 && completion_of(26)[0] == 'm' && completion_of(26)[4] == 'g' && completion_of(26)[6] == 't');
    assert(completion_of(27) == "bop create "@);
    assert(completion_of(27).len() == 11 && completion_of(27)[0] == 'b' && completion_of(27)[4] == 'c' && completion_of(27)[6] == 'e');
    assert(completion_of(28) == "bop insert "@);
    assert(completion_of(28).len() == 11 && completion_of(28)[0] == 'b' && completion_of(28)[4] == 'i' && completion_of(28)[6] == 's');
    assert(completion_of(29) == "bop upsert "@);
    assert(completion_of(29).len() == 11 && completion_of(29)[0] == 'b' && completion_of(29)[4] == 'u' && completion_of(29)[6] == 's');
    assert(completion_of(30) == "bop update "@);
    assert(completion_of(30).len() == 11 && completion_of(30)[0] == 'b' && completion_of(30)[4] == 'u' && completion_of(30)[6] == 'd');
    assert(completion_of(31) == "bop delete "@);
    assert(completion_of(31).len() == 11 && completion_of(31)[0] == 'b' && completion_of(31)[4] == 'd' && completion_of(31)[6] == 'l');
    assert(completion_of(32) == "bop get "@);
    assert(completion_of(32).len() == 8 && completion_of(32)[0] == 'b' && completion_of(32)[4] == 'g' && completion_of(32)[6] == 't');
    assert(completion_of(33) == "bop count "@);
    assert(completion_of(33).len() == 10 && completion_of(33)[0] == 'b' && completion_of(33)[4] == 'c' && completion_of(33)[6] == 'u');
    assert(completion_of(34) == "bop incr "@);
    assert(completion_of(34).len() == 9 && completion_of(34)[0] == 'b' && completion_of(34)[4] == 'i' && completion_of(34)[6] == 'c');
    assert(completion_of(35) == "bop decr "@);
    assert(completion_of(35).len() == 9 && completion_of(35)[0] == 'b' && completion_of(35)[4] == 'd' && completion_of(35)[6] == 'c');
    assert(completion_of(36) == "bop mget "@);
    assert(completion_of(36).len() == 9 && completion_of(36)[0] == 'b' && completion_of(36)[4] == 'm' && completion_of(36)[6] == 'e');
    assert(completion_of(37) == "bop smget "@);
    assert(completion_of(37).len() == 10 && completion_of(37)[0] == 'b' && completion_of(37)[4] == 's' && completion_of(37)[6] == 'g');
    assert(completion_of(38) == "bop position "@);
    assert(completion_of(38).len() == 13 && completion_of(38)[0] == 'b' && completion_of(38)[4] == 'p' && completion_of(38)[6] == 's');
    assert(completion_of(39) == "bop gbp "@);
    assert(completion_of(39).len() == 8 && completion_of(39)[0] == 'b' && completion_of(39)[4] == 'g' && completion_of(39)[6] == 'p');
    assert(completion_of(40) == "bop pwg "@);
    assert(completion_of(40).len() == 8 && completion_of(40)[0] == 'b' && completion_of(40)[4] == 'p' && completion_of(40)[6] == 'g');
    assert forall|i: int, j: int|
        0 <= i < j < 41 implies #[trigger] completion_of(i) != #[trigger] completion_of(j) by {
        // Split on every index, so that each pair is compared on its own.
        assert(i == 0 || i == 1 || i == 2 || i == 3 || i == 4 || i == 5 || i == 6 || i == 7 || i == 8 || i == 9 || i == 10 || i == 11 || i == 12 || i == 13 || i == 14 || i == 15 || i == 16 || i == 17 || i == 18 || i == 19 || i == 20 || i == 21 || i == 22 || i == 23 || i == 24 || i == 25 || i == 26 || i == 27 || i == 28 || i == 29 || i == 30 || i == 31 || i == 32 || i == 33 || i == 34 || i == 35 || i == 36 || i == 37 || i == 38 || i == 39 || i == 40);
        assert(j == 0 || j == 1 || j == 2 || j == 3 || j == 4 || j == 5 || j == 6 || j == 7 || j == 8 || j == 9 || j == 10 || j == 11 || j == 12 || j == 13 || j == 14 || j == 15 || j == 16 || j == 17 || j == 18 || j == 19 || j == 20 || j == 21 || j == 22 || j == 23 || j == 24 || j == 25 || j == 26 || j == 27 || j == 28 || j == 29 || j == 30 || j == 31 || j == 32 || j == 33 || j == 34 || j == 35 || j == 36 || j == 37 || j == 38 || j == 39 || j == 40);
    }
}

impl CMDHint {
    /// The completion takes the hint up to `complete_up_to` bytes, the bytes
    /// of a leading part of what it shows.
    pub open spec fn wf(&self) -> bool {
        exists|p: Seq<char>|
            p.is_prefix_of(self.display@) && self.complete_up_to == utf8(p).len() as usize
    }
}

/// Every hint of `hints` is well formed.
pub open spec fn all_wf(hints: Seq<CMDHint>) -> bool {
    forall|i: int| 0 <= i < hints.len() ==> (#[trigger] hints[i]).wf()
}

/// Appends the hint showing `text`, completed up to `up_to`.
fn add_hint(hints: &mut Vec<CMDHint>, text: &str, up_to: &str)
    requires
        all_wf(old(hints)@),
        up_to@.is_prefix_of(text@),
        is_ascii_chars(up_to@),
        up_to@.len() < 256,
    ensures
        all_wf(final(hints)@),
        hints_view(final(hints)@) == hints_view(old(hints)@).push((text@, up_to@.len())),
{
    let h = CMDHint::new(text, up_to);
    proof {
        is_ascii_spec_bytes(up_to);
    }
    assert(h.wf()) by {
        assert(up_to@.is_prefix_of(h.display@));
    }
    hints.push(h);
    assert(forall|i: int| 0 <= i < old(hints)@.len() ==> hints@[i] == old(hints)@[i]);
    assert(hints_view(hints@) =~= hints_view(old(hints)@).push((text@, up_to@.len())));
}

/// Appends the hints of the key/value commands.
fn push_key_value_hints(hints: &mut Vec<CMDHint>)
    requires
        all_wf(old(hints)@),
    ensures
        all_wf(final(hints)@),
        hints_view(final(hints)@) == hints_view(old(hints)@) + with_lengths(key_value_table()),
        completions_lead(key_value_table()),
{
    proof {
        reveal_strlit("get <key>");
        reveal_strlit("get ");
    }
    add_hint(hints, "get <key>", "get ");
    proof {
        reveal_strlit("gets <key>");
        reveal_strlit("gets ");
    }
    add_hint(hints, "gets <key>", "gets ");
    proof {
        reveal_strlit("mget <lenkeys> <numkeys>\n<\"space separated keys\">");
        reveal_strlit("mget ");
    }
    add_hint(hints, "mget <lenkeys> <numkeys>\n<\"space separated keys\">", "mget ");
    proof {
        reveal_strlit("mgets <lenkeys> <numkeys>\n<\"space separated keys\">");
        reveal_strlit("mgets ");
    }
    add_hint(hints, "mgets <lenkeys> <numkeys>\n<\"space separated keys\">", "mgets ");
    proof {
        reveal_strlit("set <key> <flags> <exptime> <bytes> [noreply]\n<data>");
        reveal_strlit("set ");
    }
    add_hint(hints, "set <key> <flags> <exptime> <bytes> [noreply]\n<data>", "set ");
    proof {
        reveal_strlit("cas <key> <flags> <exptime> <bytes> [noreply]\n<data>");
        reveal_strlit("cas ");
    }
    add_hint(hints, "cas <key> <flags> <exptime> <bytes> [noreply]\n<data>", "cas ");
    proof {
        reveal_strlit("add <key> <flags> <exptime> <bytes> [noreply]\n<data>");
        reveal_strlit("add ");
    }
    add_hint(hints, "add <key> <flags> <exptime> <bytes> [noreply]\n<data>", "add ");
    proof {
        reveal_strlit("append <key> <flags> <exptime> <bytes> [noreply]\n<data>");
        reveal_strlit("append ");
    }
    add_hint(hints, "append <key> <flags> <exptime> <bytes> [noreply]\n<data>", "append ");
    proof {
        reveal_strlit("prepend <key> <flags> <exptime> <bytes> [noreply]\n<data>");
        reveal_strlit("prepend ");
    }
    add_hint(hints, "prepend <key> <flags> <exptime> <bytes> [noreply]\n<data>", "prepend ");
    proof {
        reveal_strlit("replace <key> <flags> <exptime> <bytes> [noreply]\n<data>");
        reveal_strlit("replace ");
    }
    add_hint(hints, "replace <key> <flags> <exptime> <bytes> [noreply]\n<data>", "replace ");
    proof {
        reveal_strlit("delete <key> [noreply]");
        reveal_strlit("delete ");
    }
    add_hint(hints, "delete <key> [noreply]", "delete ");
    proof {
        reveal_strlit("incr <key> <delta> [<flags> <exptime> <initial>] [noreply]");
        reveal_strlit("incr ");
    }
    add_hint(hints, "incr <key> <delta> [<flags> <exptime> <initial>] [noreply]", "incr ");
    proof {
        reveal_strlit("decr <key> <delta> [<flags> <exptime> <initial>] [noreply]");
        reveal_strlit("decr ");
    }
    add_hint(hints, "decr <key> <delta> [<flags> <exptime> <initial>] [noreply]", "decr ");
    assert(hints_view(hints@) =~= hints_view(old(hints)@) + with_lengths(key_value_table()));
    assert forall|i: int| 0 <= i < key_value_table().len() implies (#[trigger] key_value_table()[i]).1.is_prefix_of(
        key_value_table()[i].0,
    ) by {
        assert(i == 0 || i == 1 || i == 2 || i == 3 || i == 4 || i == 5 || i == 6 || i == 7 || i == 8 || i == 9 || i == 10 || i == 11 || i == 12);
    }
}

/// Appends the hints of the list commands.
fn push_list_hints(hints: &mut Vec<CMDHint>)
    requires
        all_wf(old(hints)@),
    ensures
        all_wf(final(hints)@),
        hints_view(final(hints)@) == hints_view(old(hints)@) + with_lengths(list_table()),
        completions_lead(list_table()),
{
    proof {
        reveal_strlit("lop create <key> <attributes> [noreply]\n* attributes: <flags> <exptime> <maxcount> [<ovflaction>] [unreadable]");
        reveal_strlit("lop create ");
    }
    add_hint(hints, "lop create <key> <attributes> [noreply]\n* attributes: <flags> <exptime> <maxcount> [<ovflaction>] [unreadable]", "lop create ");
    proof {
        reveal_strlit("lop insert <key> <index> <bytes> [create <attributes>] [noreply|pipe]\n* attributes: <flags> <exptime> <maxcount> [<ovflaction>] [unreadable]\n<data>");
        reveal_strlit("lop insert ");
    }
    add_hint(hints, "lop insert <key> <index> <bytes> [create <attributes>] [noreply|pipe]\n* attributes: <flags> <exptime> <maxcount> [<ovflaction>] [unreadable]\n<data>", "lop insert ");
    proof {
        reveal_strlit("lop delete <key> <index or \"index range\"> [drop] [noreply|pipe]");
        reveal_strlit("lop delete ");
    }
    add_hint(hints, "lop delete <key> <index or \"index range\"> [drop] [noreply|pipe]", "lop delete ");
    proof {
        reveal_strlit("lop get <key> <index or \"index range\"> [delete|drop]");
        reveal_strlit("lop get ");
    }
    add_hint(hints, "lop get <key> <index or \"index range\"> [delete|drop]", "lop get ");
    assert(hints_view(hints@) =~= hints_view(old(hints)@) + with_lengths(list_table()));
    assert forall|i: int| 0 <= i < list_table().len() implies (#[trigger] list_table()[i]).1.is_prefix_of(
        list_table()[i].0,
    ) by {
        assert(i == 0 || i == 1 || i == 2 || i == 3);
    }
}

/// Appends the hints of the set commands.
fn push_set_hints(hints: &mut Vec<CMDHint>)
    requires
        all_wf(old(hints)@),
    ensures
        all_wf(final(hints)@),
        hints_view(final(hints)@) == hints_view(old(hints)@) + with_lengths(set_table()),
        completions_lead(set_table()),
{
    proof {
        reveal_strlit("sop create <key> <attributes> [noreply]\n* <attributes>: <flags> <exptime> <maxcount> [<ovflaction>] [unreadable]");
        reveal_strlit("sop create ");
    }
    add_hint(hints, "sop create <key> <attributes> [noreply]\n* <attributes>: <flags> <exptime> <maxcount> [<ovflaction>] [unreadable]", "sop create ");
    proof {
        reveal_strlit("sop insert <key> <bytes> [create <attributes>] [noreply|pipe]\n* <attributes>: <flags> <exptime> <maxcount> [<ovflaction>] [unreadable]\n<data>");
        reveal_strlit("sop insert ");
    }
    add_hint(hints, "sop insert <key> <bytes> [create <attributes>] [noreply|pipe]\n* <attributes>: <flags> <exptime> <maxcount> [<ovflaction>] [unreadable]\n<data>", "sop insert ");
    proof {
        reveal_strlit("sop delete <key> <bytes> [drop] [noreply|pipe]\n<data>");
        reveal_strlit("sop delete ");
    }
    add_hint(hints, "sop delete <key> <bytes> [drop] [noreply|pipe]\n<data>", "sop delete ");
    proof {
        reveal_strlit("sop get <key> <count> [delete|drop]");
        reveal_strlit("sop get ");
    }
    add_hint(hints, "sop get <key> <count> [delete|drop]", "sop get ");
    proof {
        reveal_strlit("sop exist <key> <bytes> [pipe]\n<data>");
        reveal_strlit("sop exist ");
    }
    add_hint(hints, "sop exist <key> <bytes> [pipe]\n<data>", "sop exist ");
    assert(hints_view(hints@) =~= hints_view(old(hints)@) + with_lengths(set_table()));
    assert forall|i: int| 0 <= i < set_table().len() implies (#[trigger] set_table()[i]).1.is_prefix_of(
        set_table()[i].0,
    ) by {
        assert(i == 0 || i == 1 || i == 2 || i == 3 || i == 4);
    }
}

/// Appends the hints of the map commands.
fn push_map_hints(hints: &mut Vec<CMDHint>)
    requires
        all_wf(old(hints)@),
    ensures
        all_wf(final(hints)@),
        hints_view(final(hints)@) == hints_view(old(hints)@) + with_lengths(map_table()),
        completions_lead(map_table()),
{
    proof {
        reveal_strlit("mop create <key> <attributes> [noreply]\n* <attributes>: <flags> <exptime> <maxcount> [<ovflaction>] [unreadable]");
        reveal_strlit("mop create ");
    }
    add_hint(hints, "mop create <key> <attributes> [noreply]\n* <attributes>: <flags> <exptime> <maxcount> [<ovflaction>] [unreadable]", "mop create ");
    proof {
        reveal_strlit("mop insert <key> <field> <bytes> [create <attributes>] [noreply|pipe]\n* <attributes>: <flags> <exptime> <maxcount> [<ovflaction>] [unreadable]\n<data>");
        reveal_strlit("mop insert ");
    }
    add_hint(hints, "mop insert <key> <field> <bytes> [create <attributes>] [noreply|pipe]\n* <attributes>: <flags> <exptime> <maxcount> [<ovflaction>] [unreadable]\n<data>", "mop insert ");
    proof {
        reveal_strlit("mop update <key> <field> <bytes> [noreply|pipe]\n<data>");
        reveal_strlit("mop update ");
    }
    add_hint(hints, "mop update <key> <field> <bytes> [noreply|pipe]\n<data>", "mop update ");
    proof {
        reveal_strlit("mop delete <key> <lenfields> <numfields> [drop] [noreply|pipe]\n[<\"space separated fields\">]");
        reveal_strlit("mop delete ");
    }
    add_hint(hints, "mop delete <key> <lenfields> <numfields> [drop] [noreply|pipe]\n[<\"space separated fields\">]", "mop delete ");
    proof {
        reveal_strlit("mop get <key> <lenfields> <numfields> [delete|drop]\n[<\"space separated fields\">]\n");
        reveal_strlit("mop get ");
    }
    add_hint(hints, "mop get <key> <lenfields> <numfields> [delete|drop]\n[<\"space separated fields\">]\n", "mop get ");
    assert(hints_view(hints@) =~= hints_view(old(hints)@) + with_lengths(map_table()));
    assert forall|i: int| 0 <= i < map_table().len() implies (#[trigger] map_table()[i]).1.is_prefix_of(
        map_table()[i].0,
    ) by {
        assert(i == 0 || i == 1 || i == 2 || i == 3 || i == 4);
    }
}

/// Appends the hints of the B-tree commands.
fn push_btree_hints(hints: &mut Vec<CMDHint>)
    requires
        all_wf(old(hints)@),
    ensures
        all_wf(final(hints)@),
        hints_view(final(hints)@) == hints_view(old(hints)@) + with_lengths(btree_table()),
        completions_lead(btree_table()),
{
    proof {
        reveal_strlit("bop create <key> <attributes> [noreply]");
        reveal_strlit("bop create ");
    }
    add_hint(hints, "bop create <key> <attributes> [noreply]", "bop create ");
    proof {
        reveal_strlit("bop insert <key> <bkey> [<eflag>] <bytes> [create <attributes>] [noreply|pipe|getrim]\n* attributes: <flags> <exptime> <maxcount> [<ovflaction>] [unreadable]\n<data>");
        reveal_strlit("bop insert ");
    }
    add_hint(hints, "bop insert <key> <bkey> [<eflag>] <bytes> [create <attributes>] [noreply|pipe|getrim]\n* attributes: <flags> <exptime> <maxcount> [<ovflaction>] [unreadable]\n<data>", "bop insert ");
    proof {
        reveal_strlit("bop upsert <key> <bkey> [<eflag>] <bytes> [create <attributes>] [noreply|pipe|getrim]\n* attributes: <flags> <exptime> <maxcount> [<ovflaction>] [unreadable]\n<data>");
        reveal_strlit("bop upsert ");
    }
    add_hint(hints, "bop upsert <key> <bkey> [<eflag>] <bytes> [create <attributes>] [noreply|pipe|getrim]\n* attributes: <flags> <exptime> <maxcount> [<ovflaction>] [unreadable]\n<data>", "bop upsert ");
    proof {
        reveal_strlit("bop update <key> <bkey> [<eflag_update>] <bytes> [noreply|pipe]\n* eflag_update : [<fwhere> <bitwop>] <fvalue>\n[<data>]");
        reveal_strlit("bop update ");
    }
    add_hint(hints, "bop update <key> <bkey> [<eflag_update>] <bytes> [noreply|pipe]\n* eflag_update : [<fwhere> <bitwop>] <fvalue>\n[<data>]", "bop update ");
    proof {
        reveal_strlit("bop delete <key> <bkey or \"bkey range\"> [<eflag_filter>] [<count>] [drop] [noreply|pipe]\n* <eflag_filter> : <fwhere> [<bitwop> <foperand>] <compop> <fvalue>");
        reveal_strlit("bop delete ");
    }
    add_hint(hints, "bop delete <key> <bkey or \"bkey range\"> [<eflag_filter>] [<count>] [drop] [noreply|pipe]\n* <eflag_filter> : <fwhere> [<bitwop> <foperand>] <compop> <fvalue>", "bop delete ");
    proof {
        reveal_strlit("bop get <key> <bkey or \"bkey range\"> [<eflag_filter>] [[<offset>] <count>] [delete|drop]\n* <eflag_filter> : <fwhere> [<bitwop> <foperand>] <compop> <fvalue>");
        reveal_strlit("bop get ");
    }
    add_hint(hints, "bop get <key> <bkey or \"bkey range\"> [<eflag_filter>] [[<offset>] <count>] [delete|drop]\n* <eflag_filter> : <fwhere> [<bitwop> <foperand>] <compop> <fvalue>", "bop get ");
    proof {
        reveal_strlit("bop count <key> <bkey or \"bkey range\"> [<eflag_filter>]\n* <eflag_filter> : <fwhere> [<bitwop> <foperand>] <compop> <fvalue>");
        reveal_strlit("bop count ");
    }
    add_hint(hints, "bop count <key> <bkey or \"bkey range\"> [<eflag_filter>]\n* <eflag_filter> : <fwhere> [<bitwop> <foperand>] <compop> <fvalue>", "bop count ");
    proof {
        reveal_strlit("bop incr <key> <bkey> <delta> [<initial> [<eflag>]] [noreply|pipe]");
        reveal_strlit("bop incr ");
    }
    add_hint(hints, "bop incr <key> <bkey> <delta> [<initial> [<eflag>]] [noreply|pipe]", "bop incr ");
    proof {
        reveal_strlit("bop decr <key> <bkey> <delta> [<initial> [<eflag>]] [noreply|pipe]");
        reveal_strlit("bop decr ");
    }
    add_hint(hints, "bop decr <key> <bkey> <delta> [<initial> [<eflag>]] [noreply|pipe]", "bop decr ");
    proof {
        reveal_strlit("bop mget <lenkeys> <numkeys> <bkey or \"bkey range\"> [<eflag_filter>] [<offset>] <count>\n* <eflag_filter> : <fwhere> [<bitwop> <foperand>] <compop> <fvalue>\n<\"space separated keys\">");
        reveal_strlit("bop mget ");
    }
    add_hint(hints, "bop mget <lenkeys> <numkeys> <bkey or \"bkey range\"> [<eflag_filter>] [<offset>] <count>\n* <eflag_filter> : <fwhere> [<bitwop> <foperand>] <compop> <fvalue>\n<\"space separated keys\">", "bop mget ");
    proof {
        reveal_strlit("bop smget <lenkeys> <numkeys> <bkey or \"bkey range\"> [<eflag_filter>] <count> [duplicate|unique]\n* <eflag_filter> : <fwhere> [<bitwop> <foperand>] <compop> <fvalue>\n<\"space separated keys\">");
        reveal_strlit("bop smget ");
    }
    add_hint(hints, "bop smget <lenkeys> <numkeys> <bkey or \"bkey range\"> [<eflag_filter>] <count> [duplicate|unique]\n* <eflag_filter> : <fwhere> [<bitwop> <foperand>] <compop> <fvalue>\n<\"space separated keys\">", "bop smget ");
    proof {
        reveal_strlit("bop position <key> <bkey> <order>\n* <order> = asc | desc");
        reveal_strlit("bop position ");
    }
    add_hint(hints, "bop position <key> <bkey> <order>\n* <order> = asc | desc", "bop position ");
    proof {
        reveal_strlit("bop gbp <key> <order> <position or \"position range\">\n");
        reveal_strlit("bop gbp ");
    }
    add_hint(hints, "bop gbp <key> <order> <position or \"position range\">\n", "bop gbp ");
    proof {
        reveal_strlit("bop pwg <key> <bkey> <order> [<count>]\n* <order> = asc | desc");
        reveal_strlit("bop pwg ");
    }
    add_hint(hints, "bop pwg <key> <bkey> <order> [<count>]\n* <order> = asc | desc", "bop pwg ");
    assert(hints_view(hints@) =~= hints_view(old(hints)@) + with_lengths(btree_table()));
    assert forall|i: int| 0 <= i < btree_table().len() implies (#[trigger] btree_table()[i]).1.is_prefix_of(
        btree_table()[i].0,
    ) by {
        assert(i == 0 || i == 1 || i == 2 || i == 3 || i == 4 || i == 5 || i == 6 || i == 7 || i == 8 || i == 9 || i == 10 || i == 11 || i == 12 || i == 13);
    }
}

/// The usage hints of the cache's commands: key/value, list, set, map and
/// B-tree, as `hint_table` lists them.
pub fn arcus_hints() -> (r: Vec<CMDHint>)
    ensures
        hints_view(r@) == with_lengths(hint_table()),
        completions_lead(hint_table()),
        all_wf(r@),
{
    let mut hints: Vec<CMDHint> = Vec::new();
    assert(hints_view(hints@) =~= Seq::empty());
    push_key_value_hints(&mut hints);
    push_list_hints(&mut hints);
    push_set_hints(&mut hints);
    push_map_hints(&mut hints);
    push_btree_hints(&mut hints);
    assert(with_lengths(hint_table()) =~= Seq::empty() + with_lengths(key_value_table())
        + with_lengths(list_table()) + with_lengths(set_table()) + with_lengths(map_table())
        + with_lengths(btree_table()));
    hints
}

/// The prompt's helper: it offers the command hints.
pub struct MyHelper {
    pub hinter: CMDHinter,
}

impl MyHelper {
    /// A helper whose hinter holds what `arcus_hints` returns.
    pub fn new() -> (r: MyHelper)
        ensures
            hints_view(r.hinter.hints@) == with_lengths(hint_table()),
            completions_lead(hint_table()),
            all_wf(r.hinter.hints@),
    {
        MyHelper { hinter: CMDHinter { hints: arcus_hints() } }
    }
}

} // verus!
