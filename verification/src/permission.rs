//! Permissions of Xenstore nodes and their text.

use vstd::prelude::*;

use crate::decimal::{
    decimal, decimal_value, is_decimal, law_decimal_round_trip, law_no_leading_zero, parse_decimal,
    push_decimal,
};
use crate::error::XsError;

verus! {

/// What a domain may do with a node.
#[derive(Clone, Copy, Debug, PartialEq, Eq, Structural)]
pub enum XsAccess {
    Nothing,
    Read,
    Write,
    ReadWrite,
}

/// One entry of a node's permission list.
#[derive(Clone, Copy, Debug, PartialEq, Eq, Structural)]
pub struct XsPermission {
    pub access: XsAccess,
    pub domid: u32,
}

/// The letter that stands for an access right.
pub open spec fn access_letter(access: XsAccess) -> char {
    match access {
        XsAccess::Nothing => 'n',
        XsAccess::Read => 'r',
        XsAccess::Write => 'w',
        XsAccess::ReadWrite => 'b',
    }
}

/// The access right that a letter stands for.
pub open spec fn letter_access(letter: char) -> Option<XsAccess> {
    if letter == 'n' {
        Some(XsAccess::Nothing)
    } else if letter == 'r' {
        Some(XsAccess::Read)
    } else if letter == 'w' {
        Some(XsAccess::Write)
    } else if letter == 'b' {
        Some(XsAccess::ReadWrite)
    } else {
        None
    }
}

/// The permission that a text stands for, if it stands for one: a letter, then the decimal
/// number of a domain.
pub open spec fn text_permission(text: Seq<char>) -> Option<XsPermission> {
    if text.len() > 0 && letter_access(text[0]) is Some && is_decimal(text.skip(1))
        && decimal_value(text.skip(1)) <= u32::MAX {
        Some(
            XsPermission {
                access: letter_access(text[0])->0,
                domid: decimal_value(text.skip(1)) as u32,
            },
        )
    } else {
        None
    }
}

/// The characters of a string, one by one.
pub(crate) fn chars_of(text: &str) -> (chars: Vec<char>)
    ensures
        chars@ == text@,
{
    let mut chars: Vec<char> = Vec::new();
    for c in it: text.chars()
        invariant
            it.seq() == text@,
            chars@ == it.seq().take(it.index() as int),
    {
        chars.push(c);
    }
    assert(chars@ =~= text@);
    chars
}

impl XsPermission {
    /// The text of this permission.
    pub open spec fn spec_text(self) -> Seq<char> {
        seq![access_letter(self.access)] + decimal(self.domid as nat)
    }

    /// Returns the text of this permission.
    pub fn to_string(&self) -> (text: String)
        ensures
            text@ == self.spec_text(),
    {
        proof {
            reveal_strlit("n");
            reveal_strlit("r");
            reveal_strlit("w");
            reveal_strlit("b");
        }
        let letter: &str = match self.access {
            XsAccess::Nothing => "n",
            XsAccess::Read => "r",
            XsAccess::Write => "w",
            XsAccess::ReadWrite => "b",
        };
        let mut text: String = String::new();
        text.append(letter);
        assert(text@ =~= seq![access_letter(self.access)]);
        push_decimal(&mut text, self.domid);
        text
    }

    /// Reads the text of a permission.
    pub fn from_str(text: &str) -> (permission: Result<XsPermission, XsError>)
        ensures
            permission matches Ok(p) ==> text_permission(text@) == Some(p),
            permission matches Err(e) ==> {
                &&& text_permission(text@) is None
                &&& e matches XsError::InvalidPermission(s) && s@ == text@
            },
    {
        let chars = chars_of(text);
        if chars.len() == 0 {
            return Err(XsError::InvalidPermission(text.to_owned()));
        }
        let access = match chars[0] {
            'n' => XsAccess::Nothing,
            'r' => XsAccess::Read,
            'w' => XsAccess::Write,
            'b' => XsAccess::ReadWrite,
            _ => {
                return Err(XsError::InvalidPermission(text.to_owned()));
            },
        };
        match parse_decimal(&chars, 1) {
            Some(domid) => Ok(XsPermission { access, domid }),
            None => Err(XsError::InvalidPermission(text.to_owned())),
        }
    }
}

/// The text of a permission stands for that permission.
pub proof fn law_permission_round_trip(permission: XsPermission)
    ensures
        text_permission(permission.spec_text()) == Some(permission),
{
    law_decimal_round_trip(permission.domid as nat);
    assert(permission.spec_text().skip(1) =~= decimal(permission.domid as nat));
}

/// The text of a permission is one letter for the access right, and then the number of the domain
/// in decimal digits, without leading zeros.
pub proof fn law_permission_text_is_letter_and_number(permission: XsPermission, text: String)
    requires
        call_ensures(XsPermission::to_string, (&permission,), text),
    ensures
        text@.len() >= 2,
        text@[0] == 'n' <==> permission.access is Nothing,
        text@[0] == 'r' <==> permission.access is Read,
        text@[0] == 'w' <==> permission.access is Write,
        text@[0] == 'b' <==> permission.access is ReadWrite,
        forall|i: int| 1 <= i < text@.len() ==> '0' <= #[trigger] text@[i] <= '9',
        text@[1] == '0' ==> text@.len() == 2,
        decimal_value(text@.skip(1)) == permission.domid,
{
    let number = decimal(permission.domid as nat);
    law_decimal_round_trip(permission.domid as nat);
    law_no_leading_zero(permission.domid as nat);
    assert(text@.skip(1) =~= number);
    assert forall|i: int| 1 <= i < text@.len() implies '0' <= #[trigger] text@[i] <= '9' by {
        assert(text@[i] == number[i - 1]);
    }
    assert(text@[1] == number[0]);
}

/// A text stands for a permission exactly if it is one of four letters followed by digits alone,
/// at least one of them, and their number fits; the letter tells the access right and the number
/// tells the domain.
pub proof fn law_text_stands_for_letter_and_number(text: Seq<char>)
    ensures
        text_permission(text) is Some <==> {
            &&& text.len() >= 2
            &&& text[0] == 'n' || text[0] == 'r' || text[0] == 'w' || text[0] == 'b'
            &&& forall|i: int| 1 <= i < text.len() ==> '0' <= #[trigger] text[i] <= '9'
            &&& decimal_value(text.skip(1)) <= u32::MAX
        },
        text_permission(text) matches Some(p) ==> {
            &&& p.domid == decimal_value(text.skip(1))
            &&& p.access is Nothing <==> text[0] == 'n'
            &&& p.access is Read <==> text[0] == 'r'
            &&& p.access is Write <==> text[0] == 'w'
            &&& p.access is ReadWrite <==> text[0] == 'b'
        },
{
    let number = text.skip(1);
    if text.len() >= 2 {
        if is_decimal(number) {
            assert forall|i: int| 1 <= i < text.len() implies '0' <= #[trigger] text[i] <= '9' by {
                assert(text[i] == number[i - 1]);
            }
        }
        if forall|i: int| 1 <= i < text.len() ==> '0' <= #[trigger] text[i] <= '9' {
            assert forall|i: int| 0 <= i < number.len() implies '0' <= #[trigger] number[i]
                <= '9' by {
                assert(number[i] == text[i + 1]);
            }
        }
    }
}

/// A text is read as a permission exactly if it stands for one, and as that one; the error repeats
/// every other text as it is.
pub proof fn law_text_is_read_or_repeated(
    text: &str,
    permission: Result<XsPermission, XsError>,
)
    requires
        call_ensures(XsPermission::from_str, (text,), permission),
    ensures
        permission matches Ok(p) ==> text_permission(text@) == Some(p),
        permission is Ok <==> text_permission(text@) is Some,
        permission matches Err(e) ==> (e matches XsError::InvalidPermission(t) && t@ == text@),
{
}

} // verus!
