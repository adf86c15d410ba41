use vstd::prelude::*;

use crate::error::RcfError;

verus! {

/// One call to make on the engine's builder, in the order given by a plan.
///
/// `L` is the type of the time-decay rate, which the engine takes as a float.
#[derive(Debug, Clone, Copy, PartialEq, Eq)]
pub enum BuilderSetting<L> {
    NumberOfTrees(usize),
    TreeCapacity(usize),
    OutputAfter(usize),
    RandomSeed(u64),
    ParallelEnabled(bool),
    TimeDecay(L),
    InternalShingling(bool),
    StorePointsum(bool),
}

/// What the engine's builder is made from: its two required sizes and the
/// settings applied to it afterwards, first to last.
#[derive(Debug, Clone)]
pub struct RcfBuilderPlan<L> {
    pub dimensions: usize,
    pub shingle_size: usize,
    pub settings: Vec<BuilderSetting<L>>,
}

/// The construction options of a forest. Every option but the two sizes may be
/// left out, in which case the engine's own default applies.
#[derive(Debug, Clone)]
pub struct PyRCFOptions<L> {
    pub dimensions: usize,
    pub shingle_size: usize,
    pub num_trees: Option<usize>,
    pub sample_size: Option<usize>,
    pub output_after: Option<usize>,
    pub random_seed: Option<u64>,
    pub parallel_execution_enabled: Option<bool>,
    pub lambda: Option<L>,
}

/// The one-element sequence of a present setting, the empty one of an absent one.
pub open spec fn when_present<L>(s: Option<BuilderSetting<L>>) -> Seq<BuilderSetting<L>> {
    match s {
        Some(x) => seq![x],
        None => Seq::empty(),
    }
}

/// True of options that a forest can be built from: a positive width and window,
/// and a positive tree count and capacity where they are given.
pub open spec fn options_valid(
    dimensions: usize,
    shingle_size: usize,
    num_trees: Option<usize>,
    sample_size: Option<usize>,
) -> bool {
    &&& dimensions > 0
    &&& shingle_size > 0
    &&& num_trees != Some(0usize)
    &&& sample_size != Some(0usize)
}

impl<L> PyRCFOptions<L> {
    /// The settings that the given options call for, in the fixed order
    /// tree count, capacity, warm-up, seed, parallelism, time decay.
    pub open spec fn optional_settings(&self) -> Seq<BuilderSetting<L>> {
        when_present(self.trees_setting())
            + when_present(self.capacity_setting())
            + when_present(self.output_after_setting())
            + when_present(self.seed_setting())
            + when_present(self.parallel_setting())
            + when_present(self.decay_setting())
    }

    /// The setting that each option calls for, where it is given.
    pub open spec fn trees_setting(&self) -> Option<BuilderSetting<L>> {
        match self.num_trees {
            Some(n) => Some(BuilderSetting::NumberOfTrees(n)),
            None => None,
        }
    }

    pub open spec fn capacity_setting(&self) -> Option<BuilderSetting<L>> {
        match self.sample_size {
            Some(n) => Some(BuilderSetting::TreeCapacity(n)),
            None => None,
        }
    }

    pub open spec fn output_after_setting(&self) -> Option<BuilderSetting<L>> {
        match self.output_after {
            Some(n) => Some(BuilderSetting::OutputAfter(n)),
            None => None,
        }
    }

    pub open spec fn seed_setting(&self) -> Option<BuilderSetting<L>> {
        match self.random_seed {
            Some(s) => Some(BuilderSetting::RandomSeed(s)),
            None => None,
        }
    }

    pub open spec fn parallel_setting(&self) -> Option<BuilderSetting<L>> {
        match self.parallel_execution_enabled {
            Some(b) => Some(BuilderSetting::ParallelEnabled(b)),
            None => None,
        }
    }

    pub open spec fn decay_setting(&self) -> Option<BuilderSetting<L>> {
        match self.lambda {
            Some(l) => Some(BuilderSetting::TimeDecay(l)),
            None => None,
        }
    }

    /// The full plan: the optional settings, then internal shingling and the
    /// point-sum store switched on.
    pub open spec fn plan_settings(&self) -> Seq<BuilderSetting<L>> {
        self.optional_settings() + seq![
            BuilderSetting::InternalShingling(true),
            BuilderSetting::StorePointsum(true),
        ]
    }

    /// True of options that a forest can be built from.
    pub open spec fn is_valid(&self) -> bool {
        options_valid(self.dimensions, self.shingle_size, self.num_trees, self.sample_size)
    }
}

/// Appends a setting that is present; leaves the list as it is otherwise.
fn push_present<L>(settings: &mut Vec<BuilderSetting<L>>, s: Option<BuilderSetting<L>>)
    ensures
        final(settings)@ == old(settings)@ + when_present(s),
{
    match s {
        Some(x) => {
            settings.push(x);
            assert(final(settings)@ =~= old(settings)@ + when_present(s));
        },
        None => {
            assert(settings@ =~= old(settings)@ + when_present(s));
        },
    }
}

impl<L> Default for PyRCFOptions<L> {
    /// A one-wide point, no window beyond the current point, every other option left out.
    fn default() -> (r: Self)
        ensures
            r.dimensions == 1,
            r.shingle_size == 1,
            r.num_trees.is_none(),
            r.sample_size.is_none(),
            r.output_after.is_none(),
            r.random_seed.is_none(),
            r.parallel_execution_enabled.is_none(),
            r.lambda.is_none(),
    {
        PyRCFOptions {
            dimensions: 1,
            shingle_size: 1,
            num_trees: None,
            sample_size: None,
            output_after: None,
            random_seed: None,
            parallel_execution_enabled: None,
            lambda: None,
        }
    }
}

impl<L: Copy> PyRCFOptions<L> {
    /// Checks the options before a forest is built from them.
    pub fn validate(&self) -> (r: Result<(), RcfError>)
        ensures
            r is Ok <==> self.is_valid(),
            r is Err ==> r == Err::<(), RcfError>(RcfError::InvalidOption),
    {
        if self.dimensions == 0 || self.shingle_size == 0 {
            return Err(RcfError::InvalidOption);
        }
        match self.num_trees {
            Some(n) => if n == 0 { return Err(RcfError::InvalidOption); },
            None => {},
        }
        match self.sample_size {
            Some(n) => if n == 0 { return Err(RcfError::InvalidOption); },
            None => {},
        }
        Ok(())
    }

    /// The plan for the engine's builder: each option that is given becomes one
    /// setting, in a fixed order, and internal shingling and the point-sum store
    /// are always switched on.
    pub fn to_rcf_builder(&self) -> (r: RcfBuilderPlan<L>)
        ensures
            r.dimensions == self.dimensions,
            r.shingle_size == self.shingle_size,
            r.settings@ == self.plan_settings(),
    {
        let mut settings: Vec<BuilderSetting<L>> = Vec::new();
        let trees_setting = match self.num_trees {
            Some(n) => Some(BuilderSetting::NumberOfTrees(n)),
            None => None,
        };
        assert(trees_setting == self.trees_setting());
        push_present(&mut settings, trees_setting);
        let capacity_setting = match self.sample_size {
            Some(n) => Some(BuilderSetting::TreeCapacity(n)),
            None => None,
        };
        assert(capacity_setting == self.capacity_setting());
        push_present(&mut settings, capacity_setting);
        let output_after_setting = match self.output_after {
            Some(n) => Some(BuilderSetting::OutputAfter(n)),
            None => None,
        };
        assert(output_after_setting == self.output_after_setting());
        push_present(&mut settings, output_after_setting);
        let seed_setting = match self.random_seed {
            Some(s) => Some(BuilderSetting::RandomSeed(s)),
            None => None,
        };
        assert(seed_setting == self.seed_setting());
        push_present(&mut settings, seed_setting);
        let parallel_setting = match self.parallel_execution_enabled {
            Some(b) => Some(BuilderSetting::ParallelEnabled(b)),
            None => None,
        };
        assert(parallel_setting == self.parallel_setting());
        push_present(&mut settings, parallel_setting);
        let decay_setting = match self.lambda {
            Some(l) => Some(BuilderSetting::TimeDecay(l)),
            None => None,
        };
        assert(decay_setting == self.decay_setting());
        push_present(&mut settings, decay_setting);
        assert(settings@ =~= self.optional_settings());
        settings.push(BuilderSetting::InternalShingling(true));
        settings.push(BuilderSetting::StorePointsum(true));
        assert(settings@ =~= self.plan_settings());
        RcfBuilderPlan { dimensions: self.dimensions, shingle_size: self.shingle_size, settings }
    }
}

/// The options of a forest handle as a caller writes them: the same fields as
/// [`PyRCFOptions`], kept beside the forest so that it can be rebuilt from them.
#[derive(Debug, Clone)]
pub struct RandomCutForestOptions<L> {
    pub dimensions: usize,
    pub shingle_size: usize,
    pub num_trees: Option<usize>,
    pub sample_size: Option<usize>,
    pub output_after: Option<usize>,
    pub random_seed: Option<u64>,
    pub parallel_execution_enabled: Option<bool>,
    pub lambda: Option<L>,
}

impl<L> Default for RandomCutForestOptions<L> {
    /// A one-wide point, no window beyond the current point, every other option left out.
    fn default() -> (r: Self)
        ensures
            r.dimensions == 1,
            r.shingle_size == 1,
            r.num_trees.is_none(),
            r.sample_size.is_none(),
            r.output_after.is_none(),
            r.random_seed.is_none(),
            r.parallel_execution_enabled.is_none(),
            r.lambda.is_none(),
    {
        RandomCutForestOptions {
            dimensions: 1,
            shingle_size: 1,
            num_trees: None,
            sample_size: None,
            output_after: None,
            random_seed: None,
            parallel_execution_enabled: None,
            lambda: None,
        }
    }
}

impl<L: Copy> RandomCutForestOptions<L> {
    /// The engine-side options, field for field.
    pub fn to_rcf_options(&self) -> (r: PyRCFOptions<L>)
        ensures
            r.dimensions == self.dimensions,
            r.shingle_size == self.shingle_size,
            r.num_trees == self.num_trees,
            r.sample_size == self.sample_size,
            r.output_after == self.output_after,
            r.random_seed == self.random_seed,
            r.parallel_execution_enabled == self.parallel_execution_enabled,
            r.lambda == self.lambda,
    {
        PyRCFOptions {
            dimensions: self.dimensions,
            shingle_size: self.shingle_size,
            num_trees: self.num_trees,
            sample_size: self.sample_size,
            output_after: self.output_after,
            random_seed: self.random_seed,
            parallel_execution_enabled: self.parallel_execution_enabled,
            lambda: self.lambda,
        }
    }
}

} // verus!
