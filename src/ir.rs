use vstd::prelude::*;

verus! {

/// A button of the infrared remote.
#[derive(Copy, Clone, PartialEq, Eq, Structural, Debug, Hash, PartialOrd, Ord)]
pub enum Button {
    BrightnessDown,
    BrightnessUp,
    Off,
    On,
    Green,
    Green1,
    Green2,
    Green3,
    Green4,
    Red,
    Red1,
    Red2,
    Red3,
    Red4,
    Blue,
    Blue1,
    Blue2,
    Blue3,
    Blue4,
    White,
    Flash,
    Smooth,
    Strobe,
    Fade,
    /// A command code that no button is mapped to.
    Unknown(u8),
}

/// One decoded remote command: the button and whether it is a repeat
/// of a held button.
#[derive(Copy, Clone, PartialEq, Eq, Structural, Debug, Hash, PartialOrd, Ord)]
pub struct IrCommand {
    pub button: Button,
    pub repeat: bool,
}

/// The button that the remote's command code stands for.
pub open spec fn button_for_code(code: u8) -> Button {
    match code {
        4 => Button::BrightnessDown,
        5 => Button::BrightnessUp,
        6 => Button::Off,
        7 => Button::On,
        8 => Button::Green,
        9 => Button::Red,
        10 => Button::Blue,
        11 => Button::White,
        12 => Button::Green1,
        13 => Button::Red1,
        14 => Button::Blue1,
        15 => Button::Flash,
        16 => Button::Green4,
        17 => Button::Red4,
        18 => Button::Blue4,
        19 => Button::Smooth,
        20 => Button::Green2,
        21 => Button::Red2,
        22 => Button::Blue2,
        23 => Button::Strobe,
        24 => Button::Green3,
        25 => Button::Red3,
        26 => Button::Blue3,
        27 => Button::Fade,
        _ => Button::Unknown(code),
    }
}

impl Button {
    /// Maps a decoded NEC command code to its button.
    pub fn from_code(code: u8) -> (r: Button)
        ensures
            r == button_for_code(code),
    {
        match code {
            4 => Button::BrightnessDown,
            5 => Button::BrightnessUp,
            6 => Button::Off,
            7 => Button::On,
            8 => Button::Green,
            9 => Button::Red,
            10 => Button::Blue,
            11 => Button::White,
            12 => Button::Green1,
            13 => Button::Red1,
            14 => Button::Blue1,
            15 => Button::Flash,
            16 => Button::Green4,
            17 => Button::Red4,
            18 => Button::Blue4,
            19 => Button::Smooth,
            20 => Button::Green2,
            21 => Button::Red2,
            22 => Button::Blue2,
            23 => Button::Strobe,
            24 => Button::Green3,
            25 => Button::Red3,
            26 => Button::Blue3,
            27 => Button::Fade,
            _ => Button::Unknown(code),
        }
    }
}

impl IrCommand {
    /// The command for a decoded NEC command code and its repeat flag.
    pub fn from_code(code: u8, repeat: bool) -> (r: IrCommand)
        ensures
            r.button == button_for_code(code),
            r.repeat == repeat,
    {
        IrCommand { button: Button::from_code(code), repeat }
    }
}

/// How many commands the queue between the infrared decoder and the main loop
/// holds; a command that arrives while it is full is dropped.
pub const IR_QUEUE_CAPACITY: usize = 8;

/// A bounded single-producer, single-consumer FIFO of decoded commands.
#[verifier::external_body]
pub struct IrCommandQueue {
    queue: heapless::spsc::Queue<IrCommand, 9>,
}

/// The commands in the queue, oldest first.
pub uninterp spec fn queued_commands(q: IrCommandQueue) -> Seq<IrCommand>;

impl View for IrCommandQueue {
    type V = Seq<IrCommand>;

    open spec fn view(&self) -> Seq<IrCommand> {
        queued_commands(*self)
    }
}

/// Relies on heapless::spsc::Queue::new: an empty queue of capacity `N - 1`.
#[verifier::external_body]
fn empty_queue() -> (q: IrCommandQueue)
    ensures
        queued_commands(q) == Seq::<IrCommand>::empty(),
{
    IrCommandQueue { queue: heapless::spsc::Queue::new() }
}

/// Relies on heapless::spsc::Queue::enqueue: appends the item unless the
/// queue already holds `N - 1` items, in which case it hands the item back.
#[verifier::external_body]
fn queue_enqueue(q: &mut IrCommandQueue, item: IrCommand) -> (r: Result<(), IrCommand>)
    ensures
        queued_commands(*old(q)).len() < IR_QUEUE_CAPACITY ==> r is Ok
            && queued_commands(*final(q)) == queued_commands(*old(q)).push(item),
        queued_commands(*old(q)).len() >= IR_QUEUE_CAPACITY ==> (r matches Err(back) && back == item)
            && queued_commands(*final(q)) == queued_commands(*old(q)),
        queued_commands(*final(q)).len() <= IR_QUEUE_CAPACITY,
{
    q.queue.enqueue(item)
}

/// Relies on heapless::spsc::Queue::dequeue: takes the oldest item, or
/// `None` when the queue is empty.
#[verifier::external_body]
fn queue_dequeue(q: &mut IrCommandQueue) -> (r: Option<IrCommand>)
    ensures
        queued_commands(*old(q)).len() == 0 ==> r is None && queued_commands(*final(q))
            == queued_commands(*old(q)),
        queued_commands(*old(q)).len() > 0 ==> r == Some(queued_commands(*old(q))[0])
            && queued_commands(*final(q)) == queued_commands(*old(q)).drop_first(),
{
    q.queue.dequeue()
}

impl IrCommandQueue {
    /// An empty queue.
    pub fn new() -> (r: IrCommandQueue)
        ensures
            r@ == Seq::<IrCommand>::empty(),
    {
        empty_queue()
    }

    /// Takes the oldest command, or `None` when there is none.
    pub fn dequeue(&mut self) -> (r: Option<IrCommand>)
        ensures
            old(self)@.len() == 0 ==> r is None && final(self)@ == old(self)@,
            old(self)@.len() > 0 ==> r == Some(old(self)@[0]) && final(self)@
                == old(self)@.drop_first(),
    {
        queue_dequeue(self)
    }

    /// Appends a command; when the queue is full the command is handed back
    /// and the queue is left as it was.
    pub fn enqueue(&mut self, item: IrCommand) -> (r: Result<(), IrCommand>)
        ensures
            old(self)@.len() < IR_QUEUE_CAPACITY ==> r is Ok && final(self)@
                == old(self)@.push(item),
            old(self)@.len() >= IR_QUEUE_CAPACITY ==> (r matches Err(back) && back == item)
                && final(self)@ == old(self)@,
    {
        queue_enqueue(self, item)
    }
}

} // verus!
