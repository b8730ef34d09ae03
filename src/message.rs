use vstd::prelude::*;

verus! {

/// One attribute record of a link message.
pub enum LinkAttr {
    /// The interface name.
    IfName(String),
    /// Any other attribute, identified by its numeric tag.
    Other(u16),
}

/// A link message: its attributes, in the order they were received.
pub struct LinkMessage {
    pub attrs: Vec<LinkAttr>,
}

/// The name carried by the first interface-name attribute of `attrs`, if any.
pub open spec fn first_ifname(attrs: Seq<LinkAttr>) -> Option<Seq<char>>
    decreases attrs.len(),
{
    if attrs.len() == 0 {
        None
    } else {
        match attrs[0] {
            LinkAttr::IfName(name) => Some(name@),
            LinkAttr::Other(_) => first_ifname(attrs.drop_first()),
        }
    }
}

impl LinkMessage {
    pub open spec fn ifname(&self) -> Option<Seq<char>> {
        first_ifname(self.attrs@)
    }
}

/// Scans the attributes in order and returns the first interface name.
pub fn find_ifname(lm: &LinkMessage) -> (r: Option<String>)
    ensures
        r matches Some(s) ==> lm.ifname() == Some(s@),
        r is None ==> lm.ifname() is None,
{
    let mut i: usize = 0;
    assert(lm.attrs@.subrange(0, lm.attrs@.len() as int) =~= lm.attrs@);
    while i < lm.attrs.len()
        invariant
            i <= lm.attrs@.len(),
            first_ifname(lm.attrs@.subrange(i as int, lm.attrs@.len() as int)) == lm.ifname(),
        decreases lm.attrs@.len() - i,
    {
        let ghost rest = lm.attrs@.subrange(i as int, lm.attrs@.len() as int);
        match &lm.attrs[i] {
            LinkAttr::IfName(name) => {
                return Some(name.clone());
            },
            LinkAttr::Other(_) => {
                assert(rest.drop_first() =~= lm.attrs@.subrange(i + 1, lm.attrs@.len() as int));
            },
        }
        i = i + 1;
    }
    None
}

/// Adding an attribute other than an interface name, at any position,
/// leaves the extracted name unchanged.
pub proof fn lemma_unrelated_attr_ignored(attrs: Seq<LinkAttr>, i: int, tag: u16)
    requires
        0 <= i <= attrs.len(),
    ensures
        first_ifname(attrs.insert(i, LinkAttr::Other(tag))) == first_ifname(attrs),
    decreases i,
{
    let ins = attrs.insert(i, LinkAttr::Other(tag));
    if i == 0 {
        assert(ins.drop_first() =~= attrs);
    } else {
        lemma_unrelated_attr_ignored(attrs.drop_first(), i - 1, tag);
        assert(ins.drop_first() =~= attrs.drop_first().insert(i - 1, LinkAttr::Other(tag)));
        assert(ins[0] == attrs[0]);
    }
}

/// Whether no attribute of `attrs` is an interface name.
pub open spec fn no_ifname(attrs: Seq<LinkAttr>) -> bool {
    forall|k: int| 0 <= k < attrs.len() ==> attrs[k] is Other
}

/// Attributes without a name, before or after the one name attribute, do not
/// change the name that is extracted.
pub proof fn lemma_name_among_unrelated(before: Seq<LinkAttr>, name: String, after: Seq<LinkAttr>)
    requires
        no_ifname(before),
        no_ifname(after),
    ensures
        first_ifname(before + seq![LinkAttr::IfName(name)] + after) == Some(name@),
    decreases before.len(),
{
    let all = before + seq![LinkAttr::IfName(name)] + after;
    if before.len() == 0 {
        assert(all[0] == LinkAttr::IfName(name));
    } else {
        lemma_name_among_unrelated(before.drop_first(), name, after);
        assert(all.drop_first() =~= before.drop_first() + seq![LinkAttr::IfName(name)] + after);
        assert(all[0] == before[0]);
    }
}

/// The payload of a routing message, by kind. Only link messages carry their
/// attributes: no other kind is read.
pub enum RtnlMessage {
    NewLink(LinkMessage),
    DelLink(LinkMessage),
    SetLink(LinkMessage),
    GetLink(LinkMessage),
    NewAddress,
    DelAddress,
    GetAddress,
    NewNeighbour,
    GetNeighbour,
    DelNeighbour,
    NewRule,
    DelRule,
    GetRule,
    NewRoute,
    DelRoute,
    GetRoute,
    /// Neighbour tables, traffic control, namespace ids and the rest.
    Other,
}

/// One decoded unit of the netlink stream.
pub enum NetlinkPayload {
    Done,
    /// A protocol error, with its (negative) errno code.
    Error(i32),
    Ack,
    Noop,
    /// The kernel dropped messages; carries the size of the overrun record.
    Overrun(usize),
    InnerMessage(RtnlMessage),
}

} // verus!
