//! What the dialogs have in common: how they lie over the window and leave it, and what an error or
//! the launch of a terminal says.

use crate::input::{following_number, next_number, Key, Propagation};
use crate::location::{is_trash_location, Location, LocationView};
use crate::text::{concat_text, same_text};
use vstd::prelude::*;

verus! {

/// A dialog that lies over the window.
#[derive(Clone, Copy, Debug, PartialEq, Eq, Structural)]
pub struct ModalLayer {
    pub number: u64,
    /// Whether the dialog is on its way out.
    pub dismissing: bool,
}

/// The dialogs that lie over the window. While there are any, the window behind them is blurred.
#[derive(Debug)]
pub struct ModalLayers {
    pub layers: Vec<ModalLayer>,
    pub last_number: u64,
    pub blurred: bool,
}

/// The layers without the one that has the given number.
pub open spec fn without_layer(layers: Seq<ModalLayer>, number: u64) -> Seq<ModalLayer> {
    layers.filter(|layer: ModalLayer| layer.number != number)
}

/// The layers with the one that has the given number on its way out.
pub open spec fn with_dismissed(layers: Seq<ModalLayer>, number: u64) -> Seq<ModalLayer> {
    layers.map_values(
        |layer: ModalLayer|
            ModalLayer { dismissing: layer.dismissing || layer.number == number, ..layer },
    )
}

/// Whether a layer with the number is there and not on its way out.
pub open spec fn is_open(layers: Seq<ModalLayer>, number: u64) -> bool {
    exists|k: int|
        0 <= k < layers.len() && (#[trigger] layers[k]).number == number && !layers[k].dismissing
}

impl ModalLayers {
    /// The window is blurred exactly while a dialog lies over it.
    pub open spec fn well_formed(&self) -> bool {
        self.blurred == (self.layers@.len() > 0)
    }

    /// A window without dialogs.
    pub fn new() -> (result: Self)
        ensures
            result.layers@.len() == 0,
            result.last_number == 0,
            result.well_formed(),
    {
        ModalLayers { layers: Vec::new(), last_number: 0, blurred: false }
    }

    /// Takes that a dialog is put over the window. Gives its number.
    pub fn open(&mut self) -> (result: u64)
        requires
            old(self).well_formed(),
        ensures
            final(self).well_formed(),
            result == next_number(old(self).last_number),
            final(self).last_number == result,
            final(self).layers@ == old(self).layers@.push(
                ModalLayer { number: result, dismissing: false },
            ),
    {
        self.last_number = following_number(self.last_number);
        self.layers.push(ModalLayer { number: self.last_number, dismissing: false });
        self.blurred = true;
        self.last_number
    }

    /// Takes that a dialog is to leave. Gives whether it begins to, which it does once.
    pub fn dismiss_modal_layer(&mut self, number: u64) -> (result: bool)
        requires
            old(self).well_formed(),
        ensures
            final(self).well_formed(),
            result == is_open(old(self).layers@, number),
            final(self).layers@ == with_dismissed(old(self).layers@, number),
            final(self).last_number == old(self).last_number,
    {
        let mut begins: bool = false;
        let mut i: usize = 0;
        let ghost before = self.layers@;
        while i < self.layers.len()
            invariant
                i <= before.len(),
                self.layers@.len() == before.len(),
                self.blurred == old(self).blurred,
                self.last_number == old(self).last_number,
                forall|k: int| i <= k < before.len() ==> self.layers@[k] == before[k],
                forall|k: int|
                    0 <= k < i ==> #[trigger] self.layers@[k] == with_dismissed(before, number)[k],
                begins ==> is_open(before, number),
                !begins ==> forall|k: int|
                    0 <= k < i ==> (#[trigger] before[k]).number != number || before[k].dismissing,
            decreases before.len() - i,
        {
            let layer: ModalLayer = self.layers[i];
            assert(layer == before[i as int]);
            if layer.number == number {
                if !layer.dismissing {
                    begins = true;
                }
                self.layers.set(i, ModalLayer { number, dismissing: true });
            }
            i = i + 1;
        }
        assert(self.layers@ == with_dismissed(before, number));
        begins
    }

    /// Takes a press beside the dialogs: the one on top leaves, unless it is in the middle of
    /// something.
    pub fn pressed(&mut self, number: u64, on_dialog: bool, is_blocked: bool) -> (result: bool)
        requires
            old(self).well_formed(),
        ensures
            final(self).well_formed(),
            result == (!on_dialog && !is_blocked && is_open(old(self).layers@, number)),
            final(self).layers@ == if on_dialog || is_blocked {
                old(self).layers@
            } else {
                with_dismissed(old(self).layers@, number)
            },
            final(self).last_number == old(self).last_number,
    {
        if is_blocked || on_dialog {
            return false;
        }
        self.dismiss_modal_layer(number)
    }

    /// Takes that a dialog is gone.
    pub fn removed(&mut self, number: u64)
        requires
            old(self).well_formed(),
        ensures
            final(self).well_formed(),
            final(self).layers@ == without_layer(old(self).layers@, number),
            final(self).last_number == old(self).last_number,
    {
        let ghost stays = |layer: ModalLayer| layer.number != number;
        let mut kept: Vec<ModalLayer> = Vec::new();
        let mut i: usize = 0;
        proof {
            reveal(Seq::filter);
            assert(self.layers@.take(0).filter(stays) == Seq::<ModalLayer>::empty());
        }
        while i < self.layers.len()
            invariant
                i <= self.layers@.len(),
                *self == *old(self),
                stays == (|layer: ModalLayer| layer.number != number),
                kept@ == self.layers@.take(i as int).filter(stays),
            decreases self.layers@.len() - i,
        {
            let layer: ModalLayer = self.layers[i];
            proof {
                reveal(Seq::filter);
                assert(self.layers@.take(i + 1).drop_last() == self.layers@.take(i as int));
                assert(self.layers@.take(i + 1).last() == layer);
            }
            if layer.number != number {
                kept.push(layer);
            }
            i = i + 1;
        }
        assert(self.layers@.take(i as int) == self.layers@);
        proof {
            self.layers@.lemma_filter_len(stays);
        }
        self.layers = kept;
        if self.layers.len() == 0 {
            self.blurred = false;
        }
    }
}

/// A dialog that tells an error.
#[derive(Debug)]
pub struct ErrorDialog {
    pub title: String,
    pub subtitle: &'static str,
    pub detail: String,
    pub dismissed: bool,
}

/// What stands below the heading of an error.
pub open spec fn error_subtitle(title: Seq<char>) -> Seq<char> {
    if title == "Completed with errors"@ {
        "Some items could not be processed"@
    } else {
        "The operation could not be completed"@
    }
}

impl ErrorDialog {
    /// The dialog for an error.
    pub fn show_error_dialog(title: String, detail: String) -> (result: Self)
        ensures
            result.title == title,
            result.detail == detail,
            result.subtitle@ == error_subtitle(title@),
            !result.dismissed,
    {
        let subtitle: &'static str = if same_text(title.as_str(), "Completed with errors") {
            "Some items could not be processed"
        } else {
            "The operation could not be completed"
        };
        ErrorDialog { title, subtitle, detail, dismissed: false }
    }

    /// Takes that the dialog is closed. Gives whether what follows it is to be done, once.
    pub fn dismiss(&mut self) -> (result: bool)
        ensures
            result == !old(self).dismissed,
            *final(self) == (ErrorDialog { dismissed: true, ..*old(self) }),
    {
        let follows: bool = !self.dismissed;
        self.dismissed = true;
        follows
    }

    /// Takes a key: Escape closes the dialog, where `result.1` tells as closing it does.
    pub fn key_pressed(&mut self, key: Key) -> (result: (Propagation, bool))
        ensures
            key is Escape ==> result.0 is Stop && result.1 == !old(self).dismissed && *final(self)
                == (ErrorDialog { dismissed: true, ..*old(self) }),
            key !is Escape ==> result.0 is Proceed && !result.1 && *final(self) == *old(self),
    {
        if key == Key::Escape {
            let follows: bool = self.dismiss();
            (Propagation::Stop, follows)
        } else {
            (Propagation::Proceed, false)
        }
    }
}

/// What opening a terminal leads to.
#[derive(Debug)]
pub enum TerminalStep {
    /// Start a terminal with the argument.
    Launch(String),
    /// Tell why no terminal can be opened.
    Refuse(&'static str),
}

/// The argument by which a terminal opens in a folder.
pub fn terminal_directory_argument(path: &str) -> (result: String)
    ensures
        result@ == "--dir="@ + path@,
{
    concat_text("--dir=", path)
}

/// What opening a terminal at a location leads to.
pub fn launch_terminal(location: &Location) -> (result: TerminalStep)
    ensures
        match location@ {
            LocationView::Native(path) => result matches TerminalStep::Launch(argument) && argument@
                == "--dir="@ + path,
            LocationView::Uri(_) => result matches TerminalStep::Refuse(reason) && reason@
                == "This location is not a local folder"@,
        },
{
    match location.native_path() {
        None => TerminalStep::Refuse("This location is not a local folder"),
        Some(path) => {
            if is_trash_location(location) {
                TerminalStep::Refuse("Terminal cannot be opened in Trash")
            } else {
                TerminalStep::Launch(terminal_directory_argument(path))
            }
        },
    }
}

/// A dialog on its way out still lies over the window but cannot be sent out again, and taking one
/// away adds none.
pub proof fn law_leaving_dialogs_count_until_gone(layers: Seq<ModalLayer>, number: u64)
    ensures
        with_dismissed(layers, number).len() == layers.len(),
        !is_open(with_dismissed(layers, number), number),
        without_layer(layers, number).len() <= layers.len(),
        with_dismissed(with_dismissed(layers, number), number) == with_dismissed(layers, number),
{
    layers.lemma_filter_len(|layer: ModalLayer| layer.number != number);
    assert(with_dismissed(with_dismissed(layers, number), number) =~= with_dismissed(
        layers,
        number,
    ));
}

/// A dialog that is dismissed is on its way out, and no other is on that account; once it is gone, the
/// others are left in their order. One is open exactly while it is there and not on its way out.
pub proof fn law_dialogs_leave_alone(
    left: Seq<ModalLayer>,
    right: Seq<ModalLayer>,
    layer: ModalLayer,
    number: u64,
)
    ensures
        without_layer(left + right, number) == without_layer(left, number) + without_layer(
            right,
            number,
        ),
        without_layer(seq![layer], number) == if layer.number == number {
            Seq::empty()
        } else {
            seq![layer]
        },
        with_dismissed(left + right, number) == with_dismissed(left, number) + with_dismissed(
            right,
            number,
        ),
        with_dismissed(seq![layer], number) == if layer.number == number {
            seq![ModalLayer { number, dismissing: true }]
        } else {
            seq![layer]
        },
        is_open(left + right, number) <==> is_open(left, number) || is_open(right, number),
        is_open(seq![layer], number) <==> layer.number == number && !layer.dismissing,
        !is_open(Seq::empty(), number),
{
    let kept = |layer: ModalLayer| layer.number != number;
    Seq::filter_distributes_over_add(left, right, kept);
    reveal_with_fuel(Seq::filter, 2);
    assert(seq![layer].drop_last() =~= Seq::<ModalLayer>::empty());
    assert(without_layer(seq![layer], number) =~= if layer.number == number {
        Seq::empty()
    } else {
        seq![layer]
    });
    assert(with_dismissed(left + right, number) =~= with_dismissed(left, number) + with_dismissed(
        right,
        number,
    ));
    assert(with_dismissed(seq![layer], number) =~= if layer.number == number {
        seq![ModalLayer { number, dismissing: true }]
    } else {
        seq![layer]
    });
    let whole = left + right;
    if is_open(whole, number) {
        let k = choose|k: int|
            0 <= k < whole.len() && (#[trigger] whole[k]).number == number && !whole[k].dismissing;
        if k < left.len() {
            assert(left[k] == whole[k]);
        } else {
            assert(right[k - left.len()] == whole[k]);
        }
    }
    if is_open(left, number) {
        let k = choose|k: int|
            0 <= k < left.len() && (#[trigger] left[k]).number == number && !left[k].dismissing;
        assert(whole[k] == left[k]);
    }
    if is_open(right, number) {
        let k = choose|k: int|
            0 <= k < right.len() && (#[trigger] right[k]).number == number && !right[k].dismissing;
        assert(whole[left.len() + k] == right[k]);
    }
    assert(seq![layer][0] == layer);
}

/// The window is blurred exactly while a dialog is there, and an error tells whether some items or the
/// whole operation failed.
pub proof fn law_dialogs_blur_the_window(layers: ModalLayers, title: Seq<char>)
    ensures
        layers.well_formed() <==> (layers.blurred <==> layers.layers@.len() > 0),
        title == "Completed with errors"@ ==> error_subtitle(title)
            == "Some items could not be processed"@,
        title != "Completed with errors"@ ==> error_subtitle(title)
            == "The operation could not be completed"@,
{
}

} // verus!
