use vstd::prelude::*;
use vstd::string::StringExecFns;
use vstd::utf8::{encode_utf8, is_ascii_chars, is_ascii_chars_encode_utf8};
use crate::color::{Colored, Elem};
use crate::text::{push_spaces, spaces};

verus! {

/// The names of the user and the group that own a file.
#[derive(Debug)]
pub struct Owner {
    user: String,
    group: String,
}

/// What an `Owner` stands for: the two names.
pub struct OwnerView {
    pub user: Seq<char>,
    pub group: Seq<char>,
}

impl View for Owner {
    type V = OwnerView;

    closed spec fn view(&self) -> OwnerView {
        OwnerView { user: self.user@, group: self.group@ }
    }
}

/// Which of the two name lookups failed when an `Owner` was built.
#[derive(Clone, Copy, Debug, PartialEq, Eq, Structural)]
pub enum ResolutionError {
    User,
    Group,
}

/// The length of a name in bytes, as it is stored.
pub open spec fn byte_len(name: Seq<char>) -> nat {
    encode_utf8(name).len()
}

/// `name` right-aligned in a column of `alignment` bytes.
pub open spec fn padded(name: Seq<char>, alignment: nat) -> Seq<char> {
    spaces((alignment - byte_len(name)) as nat) + name
}

/// The result of building an owner from the outcomes of the user lookup
/// and the group lookup: the user lookup is answered first.
pub open spec fn owner_of(user: Option<Seq<char>>, group: Option<Seq<char>>) -> Result<
    OwnerView,
    ResolutionError,
> {
    match user {
        None => Err(ResolutionError::User),
        Some(u) => match group {
            None => Err(ResolutionError::Group),
            Some(g) => Ok(OwnerView { user: u, group: g }),
        },
    }
}

/// The view of an optional name.
pub open spec fn name_view(name: Option<String>) -> Option<Seq<char>> {
    match name {
        None => None,
        Some(s) => Some(s@),
    }
}

/// The view of the result of building an owner.
pub open spec fn result_view(r: Result<Owner, ResolutionError>) -> Result<OwnerView, ResolutionError> {
    match r {
        Ok(o) => Ok(o@),
        Err(e) => Err(e),
    }
}

/// `name` right-aligned in `alignment` bytes, appended after leading spaces.
fn pad(name: &String, alignment: usize) -> (r: String)
    requires
        alignment >= byte_len(name@),
    ensures
        r@ == padded(name@, alignment as nat),
{
    let len = name.as_str().len();
    let mut r = String::new();
    push_spaces(&mut r, alignment - len);
    r.append(name.as_str());
    assert(r@ =~= padded(name@, alignment as nat));
    r
}

/// The bytes of two names written one after the other are the bytes of the
/// first followed by the bytes of the second.
proof fn lemma_byte_len_concat(a: Seq<char>, b: Seq<char>)
    ensures
        encode_utf8(a + b) == encode_utf8(a) + encode_utf8(b),
    decreases a.len(),
{
    if a.len() == 0 {
        assert(a + b =~= b);
        assert(encode_utf8(a) + encode_utf8(b) =~= encode_utf8(b));
    } else {
        assert((a + b).drop_first() =~= a.drop_first() + b);
        lemma_byte_len_concat(a.drop_first(), b);
        assert((a + b)[0] == a[0]);
        assert(encode_utf8(a + b) =~= encode_utf8(a) + encode_utf8(b));
    }
}

/// A right-aligned name fills its column exactly: the padded text is
/// `alignment` bytes long.
pub proof fn lemma_padded_width(name: Seq<char>, alignment: nat)
    requires
        alignment >= byte_len(name),
    ensures
        byte_len(padded(name, alignment)) == alignment,
{
    let pad = spaces((alignment - byte_len(name)) as nat);
    lemma_byte_len_concat(pad, name);
    assert(is_ascii_chars(pad));
    is_ascii_chars_encode_utf8(pad);
}

/// Rendering a name twice with the same width gives the same fragment:
/// any two results that `Owner::render_user` or `Owner::render_group` may
/// return for them are equal.
pub proof fn lemma_owner_render_repeatable(
    name: Seq<char>,
    alignment: nat,
    elem: Elem,
    first: Colored,
    second: Colored,
)
    requires
        first.text@ == padded(name, alignment),
        first.elem == elem,
        second.text@ == padded(name, alignment),
        second.elem == elem,
    ensures
        first.text@ == second.text@,
        first.elem == second.elem,
{
}

impl Owner {
    /// The owner with the given user name and group name.
    pub fn new(user: String, group: String) -> (r: Owner)
        ensures
            r@ == (OwnerView { user: user@, group: group@ }),
    {
        Owner { user, group }
    }

    /// The owner built from the names that the user and group lookups gave,
    /// `None` standing for a lookup that failed or a name that is not text.
    pub fn from_names(user: Option<String>, group: Option<String>) -> (r: Result<
        Owner,
        ResolutionError,
    >)
        ensures
            result_view(r) == owner_of(name_view(user), name_view(group)),
    {
        match user {
            None => Err(ResolutionError::User),
            Some(u) => match group {
                None => Err(ResolutionError::Group),
                Some(g) => Ok(Owner { user: u, group: g }),
            },
        }
    }

    /// The user name.
    pub fn user(&self) -> (r: String)
        ensures
            r@ == self@.user,
    {
        self.user.clone()
    }

    /// The group name.
    pub fn group(&self) -> (r: String)
        ensures
            r@ == self@.group,
    {
        self.group.clone()
    }

    /// The user name right-aligned in a column of `user_alignment` bytes,
    /// tagged with the user role.
    pub fn render_user(&self, user_alignment: usize) -> (r: Colored)
        requires
            user_alignment >= byte_len(self@.user),
        ensures
            r.text@ == padded(self@.user, user_alignment as nat),
            r.elem == Elem::User,
    {
        Colored { elem: Elem::User, text: pad(&self.user, user_alignment) }
    }

    /// The group name right-aligned in a column of `group_alignment` bytes,
    /// tagged with the group role.
    pub fn render_group(&self, group_alignment: usize) -> (r: Colored)
        requires
            group_alignment >= byte_len(self@.group),
        ensures
            r.text@ == padded(self@.group, group_alignment as nat),
            r.elem == Elem::Group,
    {
        Colored { elem: Elem::Group, text: pad(&self.group, group_alignment) }
    }
}

} // verus!
