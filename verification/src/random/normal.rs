//! The bookkeeping of a normal sampler that makes its variates in pairs.
//!
//! A pair is made from two words of the bit generator by arithmetic that
//! belongs to the caller, who may also find the two words unfit and ask for
//! two more. Of an accepted pair the first value is the draw and the second
//! is held back: it is the very next draw, for which no word is used.

use crate::math::scalar::Scalar;
use crate::random::bits::generator_advance;
use crate::random::bits::generator_output;
use crate::random::bits::seeded_state;
use crate::random::bits::RngBase;
use vstd::prelude::*;

verus! {

/// What a sampler answers when it is asked for a standard draw.
#[derive(Debug)]
pub enum Draw<T> {
    /// The value that was held back from the last accepted pair: it is the draw.
    Ready(T),
    /// Two fresh words of the bit generator, in the order in which they
    /// were drawn, from which the caller is to make a pair.
    Fresh(u64, u64),
}

/// A sampler as a mathematical value.
pub struct SamplerModel<T> {
    /// The state of the bit generator.
    pub generator: (u64, u64),
    /// The value held back from the last accepted pair, until it is drawn.
    pub buffer: Option<T>,
    /// The mean of the distribution.
    pub mean: T,
    /// The standard deviation of the distribution.
    pub std_dev: T,
}

/// The state of a normal sampler: its bit generator, the value held back
/// from the pair before, and the mean and standard deviation that every
/// standard draw is carried to.
#[derive(Debug)]
pub struct NormalDistRng<T> {
    generator: RngBase,
    buffer: Option<T>,
    mean: T,
    std_dev: T,
}

impl<T> View for NormalDistRng<T> {
    type V = SamplerModel<T>;

    closed spec fn view(&self) -> SamplerModel<T> {
        SamplerModel {
            generator: self.generator@,
            buffer: self.buffer,
            mean: self.mean,
            std_dev: self.std_dev,
        }
    }
}

impl<T: Copy> NormalDistRng<T> {
    /// A sampler for the given mean and standard deviation, with nothing
    /// held back, whose bit generator is seeded from the wall clock: its
    /// stream continues no other.
    pub fn from_mean_and_std(mean: T, std_dev: T) -> (rng: NormalDistRng<T>)
        ensures
            rng@.buffer is None,
            rng@.mean == mean,
            rng@.std_dev == std_dev,
            exists|seed: u64| rng@.generator == seeded_state(seed),
    {
        NormalDistRng { generator: RngBase::new(), buffer: None, mean, std_dev }
    }

    /// A sampler for the given mean and standard deviation, with nothing
    /// held back, whose bit generator is seeded with `seed`: the same seed
    /// gives the same stream.
    pub fn from_seed(seed: u64, mean: T, std_dev: T) -> (rng: NormalDistRng<T>)
        ensures
            rng@ == (SamplerModel {
                generator: seeded_state(seed),
                buffer: None,
                mean,
                std_dev,
            }),
    {
        NormalDistRng { generator: RngBase::from_seed(seed), buffer: None, mean, std_dev }
    }

    /// Asks for a standard draw. A value that is held back is handed out and
    /// is then held no longer; the generator is left alone. Otherwise two
    /// words are drawn from the generator, one after the other.
    pub fn draw(&mut self) -> (drawn: Draw<T>)
        ensures
            match old(self)@.buffer {
                Some(held) => {
                    &&& drawn == Draw::<T>::Ready(held)
                    &&& final(self)@ == (SamplerModel { buffer: None, ..old(self)@ })
                },
                None => {
                    &&& drawn == Draw::<T>::Fresh(
                        generator_output(old(self)@.generator),
                        generator_output(generator_advance(old(self)@.generator)),
                    )
                    &&& final(self)@ == (SamplerModel {
                        generator: generator_advance(generator_advance(old(self)@.generator)),
                        ..old(self)@
                    })
                },
            },
    {
        match self.buffer {
            Some(held) => {
                self.buffer = None;
                Draw::Ready(held)
            },
            None => {
                let first = self.generator.next();
                let second = self.generator.next();
                Draw::Fresh(first, second)
            },
        }
    }

    /// Takes in the pair that the caller made of two fresh words and
    /// accepted: `first` is the draw, and `second` is held back for the next
    /// one. A pair that the caller rejects is not handed in: the caller asks
    /// again, and gets two more words.
    pub fn accept(&mut self, first: T, second: T) -> (drawn: T)
        ensures
            drawn == first,
            final(self)@ == (SamplerModel { buffer: Some(second), ..old(self)@ }),
    {
        self.buffer = Some(second);
        first
    }
}

impl<T: Scalar> NormalDistRng<T> {
    /// Carries a standard draw to the distribution of the sampler: the mean
    /// plus the standard deviation times the draw.
    pub fn scale(&self, standard: T) -> (scaled: T)
        ensures
            scaled == self@.mean.sum(self@.std_dev.product(standard)),
    {
        self.mean.add(self.std_dev.mul(standard))
    }
}

} // verus!
