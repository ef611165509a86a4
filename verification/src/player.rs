//! The audio player: a session on a speaker endpoint that plays frames of
//! one layout.

use crate::frame::Frame;
use crate::session::{
    channels_of, frames_that_fit, output_period, Backend, DeviceSession, SessionView,
};
use crate::signal::PollOutcome;
use crate::system::speaker_opened;
use core::marker::PhantomData;
use vstd::prelude::*;

verus! {

/// Audio player (speaker output) for frames of layout `F`.
pub struct Player<F: Frame, W> {
    session: DeviceSession<W>,
    layout: PhantomData<F>,
}

impl<F: Frame, W> Player<F, W> {
    /// The value of the session underneath.
    pub closed spec fn session_view(&self) -> SessionView<W> {
        self.session@
    }

    /// Connect to the speaker system at `sr` hertz; `None` if it cannot be
    /// opened.
    pub fn new(backend: &Backend, sr: u32) -> (player: Option<Player<F, W>>)
        ensures
            match player {
                Some(p) => speaker_opened::<W>(*backend, sr) == Ok::<
                    SessionView<W>,
                    crate::error::AudioError,
                >(p.session_view()),
                None => speaker_opened::<W>(*backend, sr) is Err,
            },
    {
        match backend.direction {
            crate::session::Direction::Input => None,
            crate::session::Direction::Output => {
                match DeviceSession::open(backend, sr) {
                    Ok(session) => Some(Player { session, layout: PhantomData }),
                    Err(_) => None,
                }
            },
        }
    }

    /// The session underneath.
    pub fn session(&self) -> (session: &DeviceSession<W>)
        ensures
            session@ == self.session_view(),
    {
        &self.session
    }

    /// Producer side: the hardware can take another period.
    pub fn signal_ready(&mut self) -> (woken: Option<W>)
        ensures
            final(self).session_view() == old(self).session_view().signalled(),
            woken == old(self).session_view().signal.woken(),
    {
        self.session.signal_ready()
    }

    /// Consumer side: one poll of the wait until a period can be filled.
    pub fn poll_period(&mut self, waker: W) -> (outcome: PollOutcome)
        ensures
            final(self).session_view() == old(self).session_view().polled(waker),
            outcome == old(self).session_view().signal.outcome(),
    {
        self.session.poll_period(waker)
    }

    /// How many frames one period plays.
    pub fn capacity(&self) -> (capacity: usize)
        ensures
            capacity == self.session_view().period.len() / F::spec_channel_count(),
    {
        self.session.frame_capacity::<F>()
    }

    /// Play the frames of `iter`: as many as fit are laid into the period,
    /// channel after channel, and the rest of the period is silent.  Returns
    /// the number of frames played.
    pub fn play_last(&mut self, iter: &[F]) -> (played: usize)
        ensures
            played == frames_that_fit(
                iter@.len(),
                F::spec_channel_count(),
                old(self).session_view().period.len(),
            ),
            final(self).session_view() == old(self).session_view().filled(
                output_period(
                    channels_of(iter@),
                    F::spec_channel_count(),
                    old(self).session_view().period.len(),
                ),
            ),
    {
        self.session.write_frames(iter)
    }
}

} // verus!
