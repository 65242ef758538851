use vstd::prelude::*;

verus! {

/// The text shown to greet `name`: `Hello, ` then the whole name, then `!`.
pub open spec fn greeting_text(name: Seq<char>) -> Seq<char> {
    "Hello, "@ + name + "!"@
}

/// Builds the greeting for `name`.
pub fn greeting(name: &str) -> (r: String)
    ensures
        r@ == greeting_text(name@),
{
    let mut r = String::from_str("Hello, ");
    r.append(name);
    r.append("!");
    r
}

/// A capability, supplied by the host, that shows a message to the user.
pub trait Alert {
    /// The messages shown so far, oldest first.
    spec fn shown(&self) -> Seq<Seq<char>>;

    /// Shows `message`, whole, once.
    fn alert(&mut self, message: &str)
        ensures
            final(self).shown() == old(self).shown().push(message@),
    ;
}

/// Greets `name` through `display`: it is asked once to show the greeting.
pub fn greet<D: Alert>(display: &mut D, name: &str)
    ensures
        final(display).shown() == old(display).shown().push(greeting_text(name@)),
{
    let message = greeting(name);
    display.alert(message.as_str());
}

/// Greeting twice with the same name asks the display twice, and both times
/// with the same message: nothing is remembered or merged between calls.
pub proof fn greet_twice_shows_two_equal_messages(before: Seq<Seq<char>>, name: Seq<char>)
    ensures
        ({
            let after = before.push(greeting_text(name)).push(greeting_text(name));
            &&& after.len() == before.len() + 2
            &&& after.subrange(0, before.len() as int) == before
            &&& after[before.len() as int] == greeting_text(name)
            &&& after[before.len() + 1int] == greeting_text(name)
        }),
{
    let after = before.push(greeting_text(name)).push(greeting_text(name));
    assert(after.subrange(0, before.len() as int) =~= before);
}

/// A display that keeps every message it is asked to show.
pub struct Transcript {
    messages: Vec<String>,
}

impl Transcript {
    /// A transcript with nothing shown yet.
    pub fn new() -> (r: Transcript)
        ensures
            r.shown() == Seq::<Seq<char>>::empty(),
    {
        let r = Transcript { messages: Vec::new() };
        assert(r.shown() =~= Seq::<Seq<char>>::empty());
        r
    }

    /// The number of messages shown so far.
    pub fn len(&self) -> (r: usize)
        ensures
            r == self.shown().len(),
    {
        self.messages.len()
    }

    /// The message shown `i`-th, counting from zero.
    pub fn message(&self, i: usize) -> (r: &str)
        requires
            i < self.shown().len(),
        ensures
            r@ == self.shown()[i as int],
    {
        self.messages[i].as_str()
    }
}

impl Alert for Transcript {
    closed spec fn shown(&self) -> Seq<Seq<char>> {
        self.messages@.map_values(|m: String| m@)
    }

    fn alert(&mut self, message: &str) {
        self.messages.push(String::from_str(message));
        assert(self.shown() =~= old(self).shown().push(message@));
    }
}

} // verus!
