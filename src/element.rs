//! The grayscale filter element: it holds the negotiated layouts and converts
//! frames with them.
use vstd::prelude::*;
use crate::caps::{transform_caps, transformed_caps, Caps, PadDirection};
use crate::frame::{convert_frame, converted_frame, frame_result, TransformError};
use crate::layout::{parse_layout, unit_size, FrameLayout};

verus! {

/// The input and output layouts agreed on by the last successful negotiation.
#[derive(Clone, Copy, Debug, PartialEq, Eq, Structural)]
pub struct NegotiatedState {
    pub input: FrameLayout,
    pub output: FrameLayout,
}

/// Which side's caps could not be read as a frame layout.
#[derive(Clone, Copy, Debug, PartialEq, Eq, Structural)]
pub enum NegotiationError {
    InputCaps,
    OutputCaps,
}

/// The filter element.  Its state is either unconfigured or the negotiated
/// pair of layouts; every method that changes it takes `&mut self`, so no
/// two calls can change or read it at once.
pub struct Rgb2Gray {
    state: Option<NegotiatedState>,
}

impl View for Rgb2Gray {
    type V = Option<NegotiatedState>;

    closed spec fn view(&self) -> Option<NegotiatedState> {
        self.state
    }
}

impl Rgb2Gray {
    /// An element that has not been negotiated yet.
    pub fn new() -> (r: Rgb2Gray)
        ensures
            r@ is None,
    {
        Rgb2Gray { state: None }
    }

    /// The layouts in use, if any.
    pub fn negotiated(&self) -> (r: Option<NegotiatedState>)
        ensures
            r == self@,
    {
        self.state
    }

    /// Reads both caps as frame layouts and, when both can be read, makes them
    /// the layouts in use.  On an error the state is left as it was.
    pub fn set_caps(&mut self, incaps: &Caps, outcaps: &Caps) -> (r: Result<(), NegotiationError>)
        ensures
            r == (match (parse_layout(incaps@), parse_layout(outcaps@)) {
                (None, _) => Err(NegotiationError::InputCaps),
                (Some(_), None) => Err(NegotiationError::OutputCaps),
                (Some(_), Some(_)) => Ok(()),
            }),
            r is Ok ==> final(self)@ == Some(
                NegotiatedState {
                    input: parse_layout(incaps@)->Some_0,
                    output: parse_layout(outcaps@)->Some_0,
                },
            ),
            r is Err ==> final(self)@ == old(self)@,
    {
        let input = match FrameLayout::from_caps(incaps) {
            Some(l) => l,
            None => return Err(NegotiationError::InputCaps),
        };
        let output = match FrameLayout::from_caps(outcaps) {
            Some(l) => l,
            None => return Err(NegotiationError::OutputCaps),
        };
        self.state = Some(NegotiatedState { input, output });
        Ok(())
    }

    /// Forgets the negotiated layouts.
    pub fn stop(&mut self)
        ensures
            final(self)@ is None,
    {
        self.state = None;
    }

    /// The buffer size that a frame described by `caps` needs.
    pub fn unit_size(&self, caps: &Caps) -> (r: Option<usize>)
        ensures
            r == (match parse_layout(caps@) {
                Some(l) => Some(l.size_spec() as usize),
                None => None,
            }),
    {
        unit_size(caps)
    }

    /// The caps acceptable on the pad opposite to `direction`.
    pub fn transform_caps(&self, direction: PadDirection, caps: &Caps, filter: Option<&Caps>) -> (r:
        Caps)
        ensures
            r@ == transformed_caps(
                direction,
                caps@,
                match filter {
                    Some(f) => Some(f@),
                    None => None,
                },
            ),
    {
        transform_caps(direction, caps, filter)
    }

    /// Converts one frame with the negotiated layouts.  Without them it fails
    /// with `NotNegotiated`; on any error `output` is left as it was.
    pub fn transform(&self, input: &[u8], output: &mut [u8]) -> (r: Result<(), TransformError>)
        ensures
            self@ is None ==> r == Err::<(), TransformError>(TransformError::NotNegotiated),
            self@ matches Some(st) ==> r == frame_result(
                st.input,
                st.output,
                input@.len() as int,
                old(output)@.len() as int,
            ),
            r is Ok ==> final(output)@ == converted_frame(
                self@->Some_0.input,
                self@->Some_0.output,
                input@,
                old(output)@,
            ),
            r is Err ==> final(output)@ == old(output)@,
    {
        match &self.state {
            None => Err(TransformError::NotNegotiated),
            Some(st) => convert_frame(&st.input, &st.output, input, output),
        }
    }
}

} // verus!
