use vstd::prelude::*;

verus! {

/// A notification that a comment mentioned a person.
#[derive(Clone, Copy, Debug, PartialEq, Eq, Structural)]
pub struct PersonMention {
    pub id: i32,
    pub recipient_id: i32,
    pub comment_id: i32,
    pub read: bool,
    pub published: i64,
}

/// A mention that marking `recipient`'s mentions as read changes.
pub open spec fn unread_for(m: PersonMention, recipient: i32) -> bool {
    m.recipient_id == recipient && !m.read
}

pub open spec fn marked(m: PersonMention, recipient: i32) -> PersonMention {
    if unread_for(m, recipient) {
        PersonMention { read: true, ..m }
    } else {
        m
    }
}

/// The changed mentions, after the change, in table order.
pub open spec fn newly_read(s: Seq<PersonMention>, recipient: i32) -> Seq<PersonMention>
    decreases s.len(),
{
    if s.len() == 0 {
        Seq::empty()
    } else {
        let rest = newly_read(s.drop_last(), recipient);
        if unread_for(s.last(), recipient) {
            rest.push(marked(s.last(), recipient))
        } else {
            rest
        }
    }
}

pub open spec fn mentions(m: PersonMention, comment: i32, recipient: i32) -> bool {
    m.comment_id == comment && m.recipient_id == recipient
}

impl PersonMention {
    /// Marks every unread mention of `for_recipient_id` as read and returns
    /// the changed mentions; no other mention changes.
    pub fn mark_all_as_read(table: &mut Vec<PersonMention>, for_recipient_id: i32) -> (changed: Vec<PersonMention>)
        ensures
            final(table)@ == old(table)@.map_values(|m: PersonMention| marked(m, for_recipient_id)),
            changed@ == newly_read(old(table)@, for_recipient_id),
    {
        let ghost before = table@;
        let n = table.len();
        let mut changed: Vec<PersonMention> = Vec::new();
        let mut i: usize = 0;
        while i < n
            invariant
                n == before.len(),
                table@.len() == n,
                0 <= i <= n,
                forall|j: int| 0 <= j < i ==> #[trigger] table@[j] == marked(before[j], for_recipient_id),
                forall|j: int| i <= j < n ==> #[trigger] table@[j] == before[j],
                changed@ == newly_read(before.subrange(0, i as int), for_recipient_id),
            decreases n - i,
        {
            let m = table[i];
            assert(before.subrange(0, i + 1).drop_last() =~= before.subrange(0, i as int));
            if m.recipient_id == for_recipient_id && !m.read {
                let r = PersonMention { read: true, ..m };
                table.set(i, r);
                changed.push(r);
            }
            i = i + 1;
        }
        assert(before.subrange(0, n as int) =~= before);
        assert(table@ =~= before.map_values(|m: PersonMention| marked(m, for_recipient_id)));
        changed
    }

    /// The first mention of `for_recipient_id` by comment `for_comment_id`,
    /// or `None` when the table holds none.
    pub fn read_by_comment_and_person(
        table: &Vec<PersonMention>,
        for_comment_id: i32,
        for_recipient_id: i32,
    ) -> (r: Option<PersonMention>)
        ensures
            r.is_none() <==> forall|j: int|
                0 <= j < table@.len() ==> !mentions(#[trigger] table@[j], for_comment_id, for_recipient_id),
            r.is_some() ==> exists|j: int|
                0 <= j < table@.len() && table@[j] == r.unwrap() && mentions(
                    #[trigger] table@[j],
                    for_comment_id,
                    for_recipient_id,
                ) && forall|k: int|
                    0 <= k < j ==> !mentions(#[trigger] table@[k], for_comment_id, for_recipient_id),
    {
        let mut i: usize = 0;
        while i < table.len()
            invariant
                0 <= i <= table@.len(),
                forall|k: int| 0 <= k < i ==> !mentions(#[trigger] table@[k], for_comment_id, for_recipient_id),
            decreases table@.len() - i,
        {
            let m = table[i];
            if m.comment_id == for_comment_id && m.recipient_id == for_recipient_id {
                assert(mentions(table@[i as int], for_comment_id, for_recipient_id));
                return Some(m);
            }
            i = i + 1;
        }
        None
    }
}

} // verus!
