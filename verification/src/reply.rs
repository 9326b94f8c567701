use vstd::prelude::*;

verus! {

/// The payload answering a `read` request: every value recorded so far.
pub struct ReadReply {
    pub messages: Vec<u64>,
}

impl Default for ReadReply {
    fn default() -> (r: Self)
        ensures
            r.messages@ == Seq::<u64>::empty(),
    {
        ReadReply { messages: Vec::new() }
    }
}

impl ReadReply {
    /// The same reply carrying a copy of `msgs` as its value list.
    pub fn with_messages(self, msgs: &Vec<u64>) -> (r: Self)
        ensures
            r.messages@ == msgs@,
    {
        let mut t = self;
        let copy = msgs.clone();
        proof {
            assert(copy@ =~= msgs@);
        }
        t.messages = copy;
        t
    }
}

/// The payload answering a `generate` request: a reply tag and the
/// identifier handed out.
pub struct ReplyGenerate {
    pub typ: String,
    pub id: u64,
}

impl Default for ReplyGenerate {
    fn default() -> (r: Self)
        ensures
            r.typ@ == Seq::<char>::empty(),
            r.id == 0,
    {
        ReplyGenerate { typ: String::new(), id: 0 }
    }
}

impl ReplyGenerate {
    /// The same reply carrying `id` as the identifier.
    pub fn with_guid(self, id: u64) -> (r: Self)
        ensures
            r.typ@ == self.typ@,
            r.id == id,
    {
        let mut t = self;
        t.id = id;
        t
    }

    /// The same reply under the tag `typ`.
    pub fn with_type(self, typ: &str) -> (r: Self)
        ensures
            r.typ@ == typ@,
            r.id == self.id,
    {
        let mut t = self;
        t.typ = typ.to_owned();
        t
    }
}

} // verus!
