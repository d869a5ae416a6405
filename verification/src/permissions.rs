//! File permissions: how they are written, and how they are edited.

use crate::text::digit;
use vstd::prelude::*;

verus! {

/// A letter where the bit is set, a dash where it is not.
pub open spec fn bit_letter(mode: u32, mask: u32, letter: char) -> char {
    if mode & mask != 0 {
        letter
    } else {
        '-'
    }
}

/// The permissions of a mode in letters.
pub open spec fn symbolic(mode: u32) -> Seq<char> {
    seq![
        if mode & 0o170000 == 0o040000 {
            'd'
        } else {
            '-'
        },
        bit_letter(mode, 0o400, 'r'),
        bit_letter(mode, 0o200, 'w'),
        bit_letter(mode, 0o100, 'x'),
        bit_letter(mode, 0o040, 'r'),
        bit_letter(mode, 0o020, 'w'),
        bit_letter(mode, 0o010, 'x'),
        bit_letter(mode, 0o004, 'r'),
        bit_letter(mode, 0o002, 'w'),
        bit_letter(mode, 0o001, 'x'),
    ]
}

/// A number below 512 in three octal digits.
pub open spec fn three_octal_digits(value: nat) -> Seq<char> {
    seq![digit(value / 64), digit(value / 8 % 8), digit(value % 8)]
}

/// The permissions of a mode as they are shown: letters, and the same in octal digits.
pub open spec fn permission_text(mode: u32) -> Seq<char> {
    symbolic(mode) + seq![' ', ' '] + three_octal_digits((mode & 0o777) as nat)
}

fn letter_for(mode: u32, mask: u32, letter: char) -> (result: char)
    ensures
        result == bit_letter(mode, mask, letter),
{
    if mode & mask != 0 {
        letter
    } else {
        '-'
    }
}

fn octal_digit(value: u32) -> (result: char)
    requires
        value < 8,
    ensures
        result == digit(value as nat),
{
    if value == 0 {
        '0'
    } else if value == 1 {
        '1'
    } else if value == 2 {
        '2'
    } else if value == 3 {
        '3'
    } else if value == 4 {
        '4'
    } else if value == 5 {
        '5'
    } else if value == 6 {
        '6'
    } else {
        '7'
    }
}

/// The permissions of a mode as they are shown.
pub fn format_permissions(mode: u32) -> (result: String)
    ensures
        result@ == permission_text(mode),
{
    let kind: char = if mode & 0o170000 == 0o040000 {
        'd'
    } else {
        '-'
    };
    let mut text: String = String::new();
    text.push(kind);
    text.push(letter_for(mode, 0o400, 'r'));
    text.push(letter_for(mode, 0o200, 'w'));
    text.push(letter_for(mode, 0o100, 'x'));
    text.push(letter_for(mode, 0o040, 'r'));
    text.push(letter_for(mode, 0o020, 'w'));
    text.push(letter_for(mode, 0o010, 'x'));
    text.push(letter_for(mode, 0o004, 'r'));
    text.push(letter_for(mode, 0o002, 'w'));
    text.push(letter_for(mode, 0o001, 'x'));
    assert(text@ == symbolic(mode));
    let value: u32 = mode & 0o777;
    assert(value < 512) by (bit_vector)
        requires
            value == mode & 0o777,
    ;
    text.push(' ');
    text.push(' ');
    text.push(octal_digit(value / 64));
    text.push(octal_digit(value / 8 % 8));
    text.push(octal_digit(value % 8));
    assert(text@ == permission_text(mode));
    text
}

/// The mode with the bits of the mask turned over.
pub fn toggled_permission(mode: u32, mask: u32) -> (result: u32)
    ensures
        result == mode ^ mask,
{
    mode ^ mask
}

/// The mode that lets everyone execute the file, or no one.
pub open spec fn with_execute(mode: u32, executable: bool) -> u32 {
    if executable {
        mode | 0o111
    } else {
        mode & !0o111
    }
}

/// The mode that lets everyone execute the file, or no one.
pub fn with_execute_permissions(mode: u32, executable: bool) -> (result: u32)
    ensures
        result == with_execute(mode, executable),
{
    if executable {
        mode | 0o111
    } else {
        mode & !0o111u32
    }
}

/// Who a row of permissions is about.
#[derive(Clone, Copy, Debug, PartialEq, Eq, Structural)]
pub enum Subject {
    Owner,
    Group,
    Others,
}

/// What a permission allows.
#[derive(Clone, Copy, Debug, PartialEq, Eq, Structural)]
pub enum Right {
    Read,
    Write,
    Execute,
}

/// The bit of a mode that gives a right to a subject.
pub open spec fn right_mask(subject: Subject, right: Right) -> u32 {
    match subject {
        Subject::Owner => match right {
            Right::Read => 0o400,
            Right::Write => 0o200,
            Right::Execute => 0o100,
        },
        Subject::Group => match right {
            Right::Read => 0o040,
            Right::Write => 0o020,
            Right::Execute => 0o010,
        },
        Subject::Others => match right {
            Right::Read => 0o004,
            Right::Write => 0o002,
            Right::Execute => 0o001,
        },
    }
}

/// The bit of a mode that gives a right to a subject.
pub fn permission_mask(subject: Subject, right: Right) -> (result: u32)
    ensures
        result == right_mask(subject, right),
{
    match subject {
        Subject::Owner => match right {
            Right::Read => 0o400,
            Right::Write => 0o200,
            Right::Execute => 0o100,
        },
        Subject::Group => match right {
            Right::Read => 0o040,
            Right::Write => 0o020,
            Right::Execute => 0o010,
        },
        Subject::Others => match right {
            Right::Read => 0o004,
            Right::Write => 0o002,
            Right::Execute => 0o001,
        },
    }
}

/// The label of a button that gives a right: its letter where it is given, a dash otherwise.
pub fn permission_bit_label(mode: u32, subject: Subject, right: Right) -> (result: char)
    ensures
        result == if mode & right_mask(subject, right) == 0 {
            '—'
        } else {
            match right {
                Right::Read => 'r',
                Right::Write => 'w',
                Right::Execute => 'x',
            }
        },
{
    if mode & permission_mask(subject, right) == 0 {
        '—'
    } else {
        match right {
            Right::Read => 'r',
            Right::Write => 'w',
            Right::Execute => 'x',
        }
    }
}

/// Whether a mode lets anyone execute the file.
pub fn is_executable(mode: u32) -> (result: bool)
    ensures
        result == (mode & 0o111 != 0),
{
    mode & 0o111 != 0
}

/// The permissions being edited. The mode is the one shown: while a change is under way, that it
/// will have. No change starts before the last one ended.
#[derive(Clone, Copy, Debug)]
pub struct PermissionEditor {
    pub mode: Option<u32>,
    pub changing: bool,
    pub previous: Option<u32>,
}

impl PermissionEditor {
    /// The editor with a change to another mode under way.
    pub open spec fn requesting(self, requested_mode: u32) -> Self {
        if self.changing {
            self
        } else {
            PermissionEditor { mode: Some(requested_mode), changing: true, previous: self.mode }
        }
    }

    /// The editor once the change ended: one that failed is undone, if the mode before was known.
    pub open spec fn after_change(self, succeeded: bool) -> Self {
        PermissionEditor {
            mode: if succeeded || self.previous is None {
                self.mode
            } else {
                self.previous
            },
            changing: false,
            previous: self.previous,
        }
    }

    /// An editor whose file is not known yet.
    pub fn new() -> (result: Self)
        ensures
            result.mode is None,
            !result.changing,
            result.previous is None,
    {
        PermissionEditor { mode: None, changing: false, previous: None }
    }

    /// Takes the mode of the file. A file system without modes gives none.
    pub fn loaded(&mut self, mode: u32)
        ensures
            *final(self) == (PermissionEditor {
                mode: if mode == 0 {
                    old(self).mode
                } else {
                    Some(mode)
                },
                ..*old(self)
            }),
    {
        if mode != 0 {
            self.mode = Some(mode);
        }
    }

    /// Whether the permissions can be edited now.
    pub fn is_sensitive(&self) -> (result: bool)
        ensures
            result == (self.mode is Some && !self.changing),
    {
        self.mode.is_some() && !self.changing
    }

    /// Starts a change to another mode; answers the bits to write. Nothing starts while a change is
    /// under way.
    pub fn request(&mut self, requested_mode: u32) -> (result: Option<u32>)
        ensures
            *final(self) == old(self).requesting(requested_mode),
            result == if old(self).changing {
                None
            } else {
                Some(requested_mode & 0o7777)
            },
    {
        if self.changing {
            return None;
        }
        self.changing = true;
        self.previous = self.mode;
        self.mode = Some(requested_mode);
        Some(requested_mode & 0o7777)
    }

    /// Takes a press on the button that gives a right; answers the bits to write. Nothing happens
    /// before the mode is known.
    pub fn bit_clicked(&mut self, subject: Subject, right: Right) -> (result: Option<u32>)
        ensures
            old(self).mode is None || old(self).changing ==> result is None && *final(self) == *old(
                self,
            ),
            old(self).mode is Some && !old(self).changing ==> *final(self) == old(self).requesting(
                old(self).mode->0 ^ right_mask(subject, right),
            ) && result == Some(final(self).mode->0 & 0o7777),
    {
        match self.mode {
            Some(mode) => self.request(toggled_permission(mode, permission_mask(subject, right))),
            None => None,
        }
    }

    /// Takes a press on the button that lets the file be executed; answers the bits to write. A
    /// change that only follows the mode shown is none.
    pub fn executable_toggled(&mut self, active: bool, syncing: bool) -> (result: Option<u32>)
        ensures
            syncing || old(self).mode is None || old(self).changing ==> result is None
                && *final(self) == *old(self),
            !syncing && old(self).mode is Some && !old(self).changing ==> *final(self) == old(
                self,
            ).requesting(with_execute(old(self).mode->0, active)) && result == Some(
                final(self).mode->0 & 0o7777,
            ),
    {
        if syncing {
            return None;
        }
        match self.mode {
            Some(mode) => self.request(with_execute_permissions(mode, active)),
            None => None,
        }
    }

    /// Takes the end of a change. One that failed is undone, if the mode before was known.
    pub fn change_ended(&mut self, succeeded: bool)
        ensures
            *final(self) == old(self).after_change(succeeded),
    {
        if !succeeded && self.previous.is_some() {
            self.mode = self.previous;
        }
        self.changing = false;
    }
}

/// Turning the same bits over twice changes nothing.
pub proof fn law_toggling_twice_restores(mode: u32, mask: u32)
    ensures
        (mode ^ mask) ^ mask == mode,
{
    assert((mode ^ mask) ^ mask == mode) by (bit_vector);
}

/// Pressing the button of a right turns that right over, and no other.
pub proof fn law_toggle_changes_one_right(
    mode: u32,
    subject: Subject,
    right: Right,
    other_subject: Subject,
    other_right: Right,
)
    ensures
        ((mode ^ right_mask(subject, right)) & right_mask(other_subject, other_right) != 0) == if (
        subject == other_subject && right == other_right) {
            mode & right_mask(subject, right) == 0
        } else {
            mode & right_mask(other_subject, other_right) != 0
        },
{
    let mask = right_mask(subject, right);
    let other = right_mask(other_subject, other_right);
    if subject == other_subject && right == other_right {
        assert(((mode ^ mask) & mask != 0) == (mode & mask == 0)) by (bit_vector)
            requires
                mask == 0o400 || mask == 0o200 || mask == 0o100 || mask == 0o040 || mask == 0o020
                    || mask == 0o010 || mask == 0o004 || mask == 0o002 || mask == 0o001,
        ;
    } else {
        assert(mask & other == 0) by (bit_vector)
            requires
                mask != other,
                mask == 0o400 || mask == 0o200 || mask == 0o100 || mask == 0o040 || mask == 0o020
                    || mask == 0o010 || mask == 0o004 || mask == 0o002 || mask == 0o001,
                other == 0o400 || other == 0o200 || other == 0o100 || other == 0o040 || other
                    == 0o020 || other == 0o010 || other == 0o004 || other == 0o002 || other
                    == 0o001,
        ;
        assert(((mode ^ mask) & other) == (mode & other)) by (bit_vector)
            requires
                mask & other == 0,
        ;
    }
}

/// Letting a file be executed gives the right to everyone, forbidding it takes it from everyone, and
/// neither touches another bit.
pub proof fn law_execute_changes_only_execution(mode: u32)
    ensures
        with_execute(mode, true) & 0o111 == 0o111,
        with_execute(mode, false) & 0o111 == 0,
        with_execute(mode, true) & !0o111 == mode & !0o111,
        with_execute(mode, false) & !0o111 == mode & !0o111,
{
    assert((mode | 0o111) & 0o111 == 0o111) by (bit_vector);
    assert((mode & !0o111u32) & 0o111 == 0) by (bit_vector);
    assert((mode | 0o111) & !0o111u32 == mode & !0o111u32) by (bit_vector);
    assert((mode & !0o111u32) & !0o111u32 == mode & !0o111u32) by (bit_vector);
}

/// A change that fails leaves the permissions as they were before it, and one that succeeds leaves
/// them as requested. Until it ended, no other starts.
pub proof fn law_changes_are_made_or_undone(editor: PermissionEditor, requested: u32, other: u32)
    requires
        editor.mode is Some,
        !editor.changing,
    ensures
        editor.requesting(requested).after_change(false).mode == editor.mode,
        editor.requesting(requested).after_change(true).mode == Some(requested),
        editor.requesting(requested).requesting(other) == editor.requesting(requested),
{
}

/// Where a subject stands in the text of a mode.
pub open spec fn subject_place(subject: Subject) -> int {
    match subject {
        Subject::Owner => 0,
        Subject::Group => 1,
        Subject::Others => 2,
    }
}

/// Where a right stands among those of a subject.
pub open spec fn right_place(right: Right) -> int {
    match right {
        Right::Read => 0,
        Right::Write => 1,
        Right::Execute => 2,
    }
}

proof fn lemma_masks_are_shifted(subject: Subject, right: Right)
    ensures
        right_mask(subject, right) == 0o400u32 >> ((3 * subject_place(subject) + right_place(
            right,
        )) as u32),
{
    assert(0o400u32 >> 0u32 == 0o400u32) by (bit_vector);
    assert(0o400u32 >> 1u32 == 0o200u32) by (bit_vector);
    assert(0o400u32 >> 2u32 == 0o100u32) by (bit_vector);
    assert(0o400u32 >> 3u32 == 0o040u32) by (bit_vector);
    assert(0o400u32 >> 4u32 == 0o020u32) by (bit_vector);
    assert(0o400u32 >> 5u32 == 0o010u32) by (bit_vector);
    assert(0o400u32 >> 6u32 == 0o004u32) by (bit_vector);
    assert(0o400u32 >> 7u32 == 0o002u32) by (bit_vector);
    assert(0o400u32 >> 8u32 == 0o001u32) by (bit_vector);
}

/// The rights stand in a mode in the order of its text: those of the owner, of the group and of the
/// others, and of each the right to read, to write and to execute. The letter of a right that is
/// given stands at its place, a dash that of one that is not.
pub proof fn law_rights_stand_in_order(mode: u32, subject: Subject, right: Right)
    ensures
        ({
            let at = 3 * (match subject {
                Subject::Owner => 0int,
                Subject::Group => 1,
                Subject::Others => 2,
            }) + (match right {
                Right::Read => 0int,
                Right::Write => 1,
                Right::Execute => 2,
            });
            &&& right_mask(subject, right) == 0o400u32 >> (at as u32)
            &&& permission_text(mode).len() == 15
            &&& permission_text(mode)[1 + at] == if mode & right_mask(subject, right) == 0 {
                '-'
            } else {
                match right {
                    Right::Read => 'r',
                    Right::Write => 'w',
                    Right::Execute => 'x',
                }
            }
        }),
{
    lemma_masks_are_shifted(subject, right);
}

/// Pressing the button of a right changes the text of the mode at the place of that right, and
/// nowhere else among the letters.
pub proof fn law_toggle_changes_one_letter(mode: u32, subject: Subject, right: Right, i: int)
    requires
        0 <= i < 10,
    ensures
        permission_text(mode ^ right_mask(subject, right))[i] == permission_text(mode)[i] <==> i
            != 1 + 3 * (match subject {
            Subject::Owner => 0int,
            Subject::Group => 1,
            Subject::Others => 2,
        }) + (match right {
            Right::Read => 0int,
            Right::Write => 1,
            Right::Execute => 2,
        }),
{
    law_toggle_changes_one_right(mode, subject, right, Subject::Owner, Right::Read);
    law_toggle_changes_one_right(mode, subject, right, Subject::Owner, Right::Write);
    law_toggle_changes_one_right(mode, subject, right, Subject::Owner, Right::Execute);
    law_toggle_changes_one_right(mode, subject, right, Subject::Group, Right::Read);
    law_toggle_changes_one_right(mode, subject, right, Subject::Group, Right::Write);
    law_toggle_changes_one_right(mode, subject, right, Subject::Group, Right::Execute);
    law_toggle_changes_one_right(mode, subject, right, Subject::Others, Right::Read);
    law_toggle_changes_one_right(mode, subject, right, Subject::Others, Right::Write);
    law_toggle_changes_one_right(mode, subject, right, Subject::Others, Right::Execute);
    let mask = right_mask(subject, right);
    assert((mode ^ mask) & 0o170000 == mode & 0o170000) by (bit_vector)
        requires
            mask == 0o400 || mask == 0o200 || mask == 0o100 || mask == 0o040 || mask == 0o020 || mask
                == 0o010 || mask == 0o004 || mask == 0o002 || mask == 0o001,
    ;
}

/// The text of a mode begins with `d` for a directory alone, and ends with two blanks and the octal
/// digits of its lowest nine bits.
pub proof fn law_mode_text_ends_in_octal(mode: u32)
    ensures
        permission_text(mode)[0] == 'd' <==> mode / 0o10000 % 16 == 4,
        permission_text(mode)[0] == 'd' || permission_text(mode)[0] == '-',
        permission_text(mode)[10] == ' ' && permission_text(mode)[11] == ' ',
        forall|i: int| 12 <= i < 15 ==> '0' <= #[trigger] permission_text(mode)[i] <= '7',
        64 * (permission_text(mode)[12] as int - '0' as int) + 8 * (permission_text(mode)[13] as int
            - '0' as int) + (permission_text(mode)[14] as int - '0' as int) == mode % 512,
{
    assert((mode & 0o170000 == 0o040000) == (mode / 0o10000 % 16 == 4)) by (bit_vector);
    assert(mode & 0o777 == mode % 512) by (bit_vector);
    let value = mode % 512;
    assert(value / 64 < 8 && value / 8 % 8 < 8 && value % 8 < 8);
    assert(64 * (value / 64) + 8 * (value / 8 % 8) + value % 8 == value);
}

/// A change is under way until it ended, and whatever is asked for meanwhile changes nothing. It
/// shows the mode asked for, and remembers the one before; where that was not known, a failure leaves
/// the mode asked for.
pub proof fn law_change_is_under_way_until_it_ended(
    editor: PermissionEditor,
    requested: u32,
    succeeded: bool,
)
    ensures
        editor.changing ==> editor.requesting(requested) == editor,
        !editor.changing ==> editor.requesting(requested).changing && editor.requesting(
            requested,
        ).mode == Some(requested) && editor.requesting(requested).previous == editor.mode,
        !editor.after_change(succeeded).changing,
        editor.after_change(true).mode == editor.mode,
        editor.previous is None ==> editor.after_change(false).mode == editor.mode,
        editor.previous is Some ==> editor.after_change(false).mode == editor.previous,
        editor.after_change(succeeded).previous == editor.previous,
{
}

} // verus!
