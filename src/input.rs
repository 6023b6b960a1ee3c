//! Input groups: aggregators that zip several per-axis streams into one
//! structured sample per step.

use vstd::prelude::*;

verus! {

/// A lazily pulled sequence of values.
pub trait Stream {
    type Item;

    /// The values this stream will still hand out, in order.
    spec fn rest(&self) -> Seq<Self::Item>;

    /// Pulls the next value; `None` once the stream is exhausted, and an
    /// exhausted stream stays exhausted.
    fn next(&mut self) -> (r: Option<Self::Item>)
        ensures
            old(self).rest().len() == 0 ==> r is None && final(self).rest() == old(self).rest(),
            old(self).rest().len() > 0 ==> r == Some(old(self).rest()[0]) && final(self).rest()
                == old(self).rest().drop_first(),
    ;
}

/// A named aggregator over per-axis streams.
pub trait InputGroup: Stream {
    spec fn spec_name(&self) -> Seq<char>;

    fn name(&self) -> (r: &'static str)
        ensures
            r@ == self.spec_name(),
    ;
}

/// A source of rotation samples (pitch, roll, yaw).
pub trait Rot: Stream {
}

/// A finite stream over the values of a vector.
pub struct SeqSource<T> {
    items: Vec<T>,
    pos: usize,
}

impl<T: Copy> SeqSource<T> {
    pub fn new(items: Vec<T>) -> (r: SeqSource<T>)
        ensures
            r.rest() == items@,
    {
        SeqSource { items, pos: 0 }
    }
}

impl<T: Copy> Stream for SeqSource<T> {
    type Item = T;

    closed spec fn rest(&self) -> Seq<T> {
        if self.pos <= self.items@.len() {
            self.items@.subrange(self.pos as int, self.items@.len() as int)
        } else {
            Seq::empty()
        }
    }

    fn next(&mut self) -> (r: Option<T>) {
        if self.pos < self.items.len() {
            let v = self.items[self.pos];
            self.pos = self.pos + 1;
            assert(self.rest() =~= old(self).rest().drop_first());
            Some(v)
        } else {
            None
        }
    }
}

/// Pulls every remaining value of a stream, in order.
pub fn collect_all<S: Stream>(s: &mut S) -> (r: Vec<S::Item>)
    ensures
        r@ == old(s).rest(),
        final(s).rest().len() == 0,
{
    let mut out: Vec<S::Item> = Vec::new();
    loop
        invariant
            out@ + s.rest() == old(s).rest(),
        decreases s.rest().len(),
    {
        let ghost before = s.rest();
        match s.next() {
            Some(v) => {
                out.push(v);
                assert(out@ + s.rest() =~= old(s).rest()) by {
                    assert(before =~= seq![v] + s.rest());
                }
            },
            None => {
                return out;
            },
        }
    }
}

pub open spec fn min2(a: nat, b: nat) -> nat {
    if a <= b {
        a
    } else {
        b
    }
}

/// A button: pressed flag and applied force.
pub struct Button<P, F> {
    pub pressed: P,
    pub force: F,
}

impl<P: Stream, F: Stream> Stream for Button<P, F> {
    type Item = (P::Item, F::Item);

    /// One sample per step while every constituent still has a value.
    open spec fn rest(&self) -> Seq<(P::Item, F::Item)> {
        Seq::new(
            min2(self.pressed.rest().len(), self.force.rest().len()),
            |i: int| (self.pressed.rest()[i], self.force.rest()[i]),
        )
    }

    fn next(&mut self) -> (r: Option<(P::Item, F::Item)>) {
        let pressed = self.pressed.next();
        let force = self.force.next();
        proof {
            assert(old(self).rest().len() == 0 ==> self.rest() =~= old(self).rest());
            assert(old(self).rest().len() > 0 ==> self.rest() =~= old(self).rest().drop_first());
        }
        match (pressed, force) {
            (Some(pressed), Some(force)) => Some((pressed, force)),
            _ => None,
        }
    }
}

impl<P: Stream, F: Stream> InputGroup for Button<P, F> {
    open spec fn spec_name(&self) -> Seq<char> {
        "Button"@
    }

    fn name(&self) -> (r: &'static str) {
        "Button"
    }
}

/// A trigger: travel, pressed flag and applied force.
pub struct Trigger<T, P, F> {
    pub travel: T,
    pub pressed: P,
    pub force: F,
}

impl<T: Stream, P: Stream, F: Stream> Stream for Trigger<T, P, F> {
    type Item = (T::Item, P::Item, F::Item);

    /// One sample per step while every constituent still has a value.
    open spec fn rest(&self) -> Seq<(T::Item, P::Item, F::Item)> {
        Seq::new(
            min2(self.travel.rest().len(), min2(self.pressed.rest().len(), self.force.rest().len())),
            |i: int| (self.travel.rest()[i], self.pressed.rest()[i], self.force.rest()[i]),
        )
    }

    fn next(&mut self) -> (r: Option<(T::Item, P::Item, F::Item)>) {
        let travel = self.travel.next();
        let pressed = self.pressed.next();
        let force = self.force.next();
        proof {
            assert(old(self).rest().len() == 0 ==> self.rest() =~= old(self).rest());
            assert(old(self).rest().len() > 0 ==> self.rest() =~= old(self).rest().drop_first());
        }
        match (travel, pressed, force) {
            (Some(travel), Some(pressed), Some(force)) => Some((travel, pressed, force)),
            _ => None,
        }
    }
}

impl<T: Stream, P: Stream, F: Stream> InputGroup for Trigger<T, P, F> {
    open spec fn spec_name(&self) -> Seq<char> {
        "Trigger"@
    }

    fn name(&self) -> (r: &'static str) {
        "Trigger"
    }
}

/// An analog stick: two axes, pressed flag and applied force.
pub struct Stick<X, Y, P, F> {
    pub x: X,
    pub y: Y,
    pub pressed: P,
    pub force: F,
}

impl<X: Stream, Y: Stream, P: Stream, F: Stream> Stream for Stick<X, Y, P, F> {
    type Item = (X::Item, Y::Item, P::Item, F::Item);

    /// One sample per step while every constituent still has a value.
    open spec fn rest(&self) -> Seq<(X::Item, Y::Item, P::Item, F::Item)> {
        Seq::new(
            min2(self.x.rest().len(), min2(self.y.rest().len(), min2(self.pressed.rest().len(), self.force.rest().len()))),
            |i: int| (self.x.rest()[i], self.y.rest()[i], self.pressed.rest()[i], self.force.rest()[i]),
        )
    }

    fn next(&mut self) -> (r: Option<(X::Item, Y::Item, P::Item, F::Item)>) {
        let x = self.x.next();
        let y = self.y.next();
        let pressed = self.pressed.next();
        let force = self.force.next();
        proof {
            assert(old(self).rest().len() == 0 ==> self.rest() =~= old(self).rest());
            assert(old(self).rest().len() > 0 ==> self.rest() =~= old(self).rest().drop_first());
        }
        match (x, y, pressed, force) {
            (Some(x), Some(y), Some(pressed), Some(force)) => Some((x, y, pressed, force)),
            _ => None,
        }
    }
}

impl<X: Stream, Y: Stream, P: Stream, F: Stream> InputGroup for Stick<X, Y, P, F> {
    open spec fn spec_name(&self) -> Seq<char> {
        "Stick"@
    }

    fn name(&self) -> (r: &'static str) {
        "Stick"
    }
}

/// A touchpad: two axes, touched flag, pressed flag and applied force.
pub struct Touchpad<X, Y, T, P, F> {
    pub x: X,
    pub y: Y,
    pub touched: T,
    pub pressed: P,
    pub force: F,
}

impl<X: Stream, Y: Stream, T: Stream, P: Stream, F: Stream> Stream for Touchpad<X, Y, T, P, F> {
    type Item = (X::Item, Y::Item, T::Item, P::Item, F::Item);

    /// One sample per step while every constituent still has a value.
    open spec fn rest(&self) -> Seq<(X::Item, Y::Item, T::Item, P::Item, F::Item)> {
        Seq::new(
            min2(self.x.rest().len(), min2(self.y.rest().len(), min2(self.touched.rest().len(), min2(self.pressed.rest().len(), self.force.rest().len())))),
            |i: int| (self.x.rest()[i], self.y.rest()[i], self.touched.rest()[i], self.pressed.rest()[i], self.force.rest()[i]),
        )
    }

    fn next(&mut self) -> (r: Option<(X::Item, Y::Item, T::Item, P::Item, F::Item)>) {
        let x = self.x.next();
        let y = self.y.next();
        let touched = self.touched.next();
        let pressed = self.pressed.next();
        let force = self.force.next();
        proof {
            assert(old(self).rest().len() == 0 ==> self.rest() =~= old(self).rest());
            assert(old(self).rest().len() > 0 ==> self.rest() =~= old(self).rest().drop_first());
        }
        match (x, y, touched, pressed, force) {
            (Some(x), Some(y), Some(touched), Some(pressed), Some(force)) => Some((x, y, touched, pressed, force)),
            _ => None,
        }
    }
}

impl<X: Stream, Y: Stream, T: Stream, P: Stream, F: Stream> InputGroup for Touchpad<X, Y, T, P, F> {
    open spec fn spec_name(&self) -> Seq<char> {
        "Touchpad"@
    }

    fn name(&self) -> (r: &'static str) {
        "Touchpad"
    }
}

/// Angular rate about three axes.
pub struct Rotation<P, R, Y> {
    pub pitch: P,
    pub roll: R,
    pub yaw: Y,
}

impl<P: Stream, R: Stream, Y: Stream> Stream for Rotation<P, R, Y> {
    type Item = (P::Item, R::Item, Y::Item);

    /// One sample per step while every constituent still has a value.
    open spec fn rest(&self) -> Seq<(P::Item, R::Item, Y::Item)> {
        Seq::new(
            min2(self.pitch.rest().len(), min2(self.roll.rest().len(), self.yaw.rest().len())),
            |i: int| (self.pitch.rest()[i], self.roll.rest()[i], self.yaw.rest()[i]),
        )
    }

    fn next(&mut self) -> (r: Option<(P::Item, R::Item, Y::Item)>) {
        let pitch = self.pitch.next();
        let roll = self.roll.next();
        let yaw = self.yaw.next();
        proof {
            assert(old(self).rest().len() == 0 ==> self.rest() =~= old(self).rest());
            assert(old(self).rest().len() > 0 ==> self.rest() =~= old(self).rest().drop_first());
        }
        match (pitch, roll, yaw) {
            (Some(pitch), Some(roll), Some(yaw)) => Some((pitch, roll, yaw)),
            _ => None,
        }
    }
}

impl<P: Stream, R: Stream, Y: Stream> InputGroup for Rotation<P, R, Y> {
    open spec fn spec_name(&self) -> Seq<char> {
        "Rotation"@
    }

    fn name(&self) -> (r: &'static str) {
        "Rotation"
    }
}

/// Linear acceleration along three axes.
pub struct Acceleration<X, Y, Z> {
    pub x: X,
    pub y: Y,
    pub z: Z,
}

impl<X: Stream, Y: Stream, Z: Stream> Stream for Acceleration<X, Y, Z> {
    type Item = (X::Item, Y::Item, Z::Item);

    /// One sample per step while every constituent still has a value.
    open spec fn rest(&self) -> Seq<(X::Item, Y::Item, Z::Item)> {
        Seq::new(
            min2(self.x.rest().len(), min2(self.y.rest().len(), self.z.rest().len())),
            |i: int| (self.x.rest()[i], self.y.rest()[i], self.z.rest()[i]),
        )
    }

    fn next(&mut self) -> (r: Option<(X::Item, Y::Item, Z::Item)>) {
        let x = self.x.next();
        let y = self.y.next();
        let z = self.z.next();
        proof {
            assert(old(self).rest().len() == 0 ==> self.rest() =~= old(self).rest());
            assert(old(self).rest().len() > 0 ==> self.rest() =~= old(self).rest().drop_first());
        }
        match (x, y, z) {
            (Some(x), Some(y), Some(z)) => Some((x, y, z)),
            _ => None,
        }
    }
}

impl<X: Stream, Y: Stream, Z: Stream> InputGroup for Acceleration<X, Y, Z> {
    open spec fn spec_name(&self) -> Seq<char> {
        "Acceleration"@
    }

    fn name(&self) -> (r: &'static str) {
        "Acceleration"
    }
}

/// A stick yields exactly as many samples as its shortest constituent stream
/// holds, each built from the values at the same position of every stream.
pub proof fn lemma_stick_zip<X: Stream, Y: Stream, P: Stream, F: Stream>(s: Stick<X, Y, P, F>)
    ensures
        s.rest().len() == min2(
            min2(s.x.rest().len(), s.y.rest().len()),
            min2(s.pressed.rest().len(), s.force.rest().len()),
        ),
        forall|i: int|
            0 <= i < s.rest().len() ==> #[trigger] s.rest()[i] == (
                s.x.rest()[i],
                s.y.rest()[i],
                s.pressed.rest()[i],
                s.force.rest()[i],
            ),
{
}

} // verus!
