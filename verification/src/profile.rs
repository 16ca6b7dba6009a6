//! Resolution profiles: the spatial extents of the source frame and of the
//! four recurrent feature maps that belong to it.

use vstd::prelude::*;
use vstd::string::*;
use crate::error::HarnessError;
use crate::shape::Shape4;

verus! {

/// The factor by which the network shrinks the source frame at a pyramid
/// level (levels are counted from 0).
pub open spec fn scale_divisor(level: int) -> int {
    if level == 0 {
        2
    } else if level == 1 {
        4
    } else if level == 2 {
        8
    } else {
        16
    }
}

/// The extent of a feature map at a pyramid level: the source extent divided
/// by the level's factor, rounded up.
pub open spec fn scaled_extent(extent: nat, level: int) -> nat {
    ((extent + scale_divisor(level) - 1) / scale_divisor(level)) as nat
}

/// The channel count of the recurrent feature map at a pyramid level.
pub open spec fn state_channels(level: int) -> nat {
    if level == 0 {
        16
    } else if level == 1 {
        20
    } else if level == 2 {
        40
    } else {
        64
    }
}

/// What a profile says, as mathematical values. `scales[k]` is the
/// (width, height) of the feature map at level `k`.
pub struct ProfileView {
    pub name: Seq<char>,
    pub source_width: nat,
    pub source_height: nat,
    pub scales: Seq<(nat, nat)>,
}

impl ProfileView {
    /// The source frame is not empty and every feature map has the extent
    /// that the network's downsampling gives it.
    pub open spec fn consistent(self) -> bool {
        &&& self.source_width > 0
        &&& self.source_height > 0
        &&& self.scales.len() == 4
        &&& forall|k: int|
            0 <= k < 4 ==> #[trigger] self.scales[k] == (
                scaled_extent(self.source_width, k),
                scaled_extent(self.source_height, k),
            )
    }

    /// The shape of the source frame tensor.
    pub open spec fn frame_shape(self) -> Seq<usize> {
        seq![1usize, 3usize, self.source_height as usize, self.source_width as usize]
    }

    /// The shape of the matte tensor.
    pub open spec fn matte_shape(self) -> Seq<usize> {
        seq![1usize, 1usize, self.source_height as usize, self.source_width as usize]
    }

    /// The shape of the recurrent feature map at a level.
    pub open spec fn state_shape(self, level: int) -> Seq<usize> {
        seq![
            1usize,
            state_channels(level) as usize,
            self.scales[level].1 as usize,
            self.scales[level].0 as usize,
        ]
    }
}

/// The view of the values from which a profile is made.
pub open spec fn profile_view(
    name: Seq<char>,
    source_width: usize,
    source_height: usize,
    scales: Seq<(usize, usize)>,
) -> ProfileView {
    ProfileView {
        name,
        source_width: source_width as nat,
        source_height: source_height as nat,
        scales: Seq::new(scales.len(), |k: int| (scales[k].0 as nat, scales[k].1 as nat)),
    }
}

/// The low-resolution profile: 120 by 90.
pub open spec fn fast_view() -> ProfileView {
    profile_view("fast"@, 120, 90, seq![(60, 45), (30, 23), (15, 12), (8, 6)])
}

/// The medium profile: 160 by 120.
pub open spec fn balanced_view() -> ProfileView {
    profile_view("balanced"@, 160, 120, seq![(80, 60), (40, 30), (20, 15), (10, 8)])
}

/// The high-resolution profile: 320 by 240.
pub open spec fn accurate_view() -> ProfileView {
    profile_view("accurate"@, 320, 240, seq![(160, 120), (80, 60), (40, 30), (20, 15)])
}

/// From one level to the next the extent is halved, rounded up.
pub proof fn lemma_each_level_halves(extent: nat, level: int)
    requires
        0 <= level < 3,
    ensures
        scaled_extent(extent, level + 1) == (scaled_extent(extent, level) + 1) / 2,
        scaled_extent(extent, 0) == (extent + 1) / 2,
{
}

/// The feature map of a frame that is not empty is not empty, and no larger
/// than the frame.
pub proof fn lemma_scaled_extent_bounds(extent: nat, level: int)
    requires
        0 <= level < 4,
        extent > 0,
    ensures
        0 < scaled_extent(extent, level) <= extent,
{
}

/// A named, immutable record of the extents of one run. Every value of this
/// type is consistent.
pub struct ResolutionProfile {
    name: String,
    source_width: usize,
    source_height: usize,
    scales: [(usize, usize); 4],
}

/// The extent of the feature map at `level` for a source extent.
fn scale_extent(extent: usize, level: usize) -> (scaled: usize)
    requires
        extent > 0,
        level < 4,
    ensures
        scaled == scaled_extent(extent as nat, level as int),
        0 < scaled <= extent,
{
    if level == 0 {
        (extent - 1) / 2 + 1
    } else if level == 1 {
        (extent - 1) / 4 + 1
    } else if level == 2 {
        (extent - 1) / 8 + 1
    } else {
        (extent - 1) / 16 + 1
    }
}

impl View for ResolutionProfile {
    type V = ProfileView;

    closed spec fn view(&self) -> ProfileView {
        profile_view(self.name@, self.source_width, self.source_height, self.scales@)
    }
}

impl ResolutionProfile {
    #[verifier::type_invariant]
    closed spec fn holds(&self) -> bool {
        self@.consistent()
    }

    /// Makes a profile from explicit extents, `scales[k]` being the
    /// (width, height) at level `k`, and refuses extents that the network's
    /// downsampling would not produce.
    pub fn new(
        name: &str,
        source_width: usize,
        source_height: usize,
        scales: [(usize, usize); 4],
    ) -> (made: Result<ResolutionProfile, HarnessError>)
        ensures
            profile_view(name@, source_width, source_height, scales@).consistent() ==> made.is_ok(),
            !profile_view(name@, source_width, source_height, scales@).consistent() ==> made
                == Err::<ResolutionProfile, HarnessError>(HarnessError::Configuration),
            made.is_ok() ==> made.unwrap()@ == profile_view(
                name@,
                source_width,
                source_height,
                scales@,
            ),
    {
        let ghost v = profile_view(name@, source_width, source_height, scales@);
        if source_width == 0 || source_height == 0 {
            return Err(HarnessError::Configuration);
        }
        let mut level: usize = 0;
        while level < 4
            invariant
                level <= 4,
                source_width > 0,
                source_height > 0,
                v == profile_view(name@, source_width, source_height, scales@),
                forall|k: int|
                    0 <= k < level ==> #[trigger] v.scales[k] == (
                        scaled_extent(source_width as nat, k),
                        scaled_extent(source_height as nat, k),
                    ),
            decreases 4 - level,
        {
            let width = scale_extent(source_width, level);
            let height = scale_extent(source_height, level);
            if scales[level].0 != width || scales[level].1 != height {
                assert(v.scales[level as int] != (
                    scaled_extent(source_width as nat, level as int),
                    scaled_extent(source_height as nat, level as int),
                ));
                return Err(HarnessError::Configuration);
            }
            level = level + 1;
        }
        Ok(ResolutionProfile { name: String::from_str(name), source_width, source_height, scales })
    }

    /// Makes the profile that belongs to a source frame of the given extents.
    pub fn for_source(name: &str, source_width: usize, source_height: usize) -> (made: Result<
        ResolutionProfile,
        HarnessError,
    >)
        ensures
            source_width > 0 && source_height > 0 ==> made.is_ok(),
            source_width == 0 || source_height == 0 ==> made == Err::<
                ResolutionProfile,
                HarnessError,
            >(HarnessError::Configuration),
            made.is_ok() ==> {
                &&& made.unwrap()@.name == name@
                &&& made.unwrap()@.source_width == source_width
                &&& made.unwrap()@.source_height == source_height
                &&& made.unwrap()@.consistent()
            },
    {
        if source_width == 0 || source_height == 0 {
            return Err(HarnessError::Configuration);
        }
        let scales = [
            (scale_extent(source_width, 0), scale_extent(source_height, 0)),
            (scale_extent(source_width, 1), scale_extent(source_height, 1)),
            (scale_extent(source_width, 2), scale_extent(source_height, 2)),
            (scale_extent(source_width, 3), scale_extent(source_height, 3)),
        ];
        let made = ResolutionProfile {
            name: String::from_str(name),
            source_width,
            source_height,
            scales,
        };
        Ok(made)
    }

    /// The low-resolution profile: 120 by 90.
    pub fn fast() -> (profile: ResolutionProfile)
        ensures
            profile@ == fast_view(),
            profile@.consistent(),
    {
        let profile = ResolutionProfile {
            name: String::from_str("fast"),
            source_width: 120,
            source_height: 90,
            scales: [(60, 45), (30, 23), (15, 12), (8, 6)],
        };
        assert(profile@ =~= profile_view(
            "fast"@,
            120,
            90,
            seq![(60, 45), (30, 23), (15, 12), (8, 6)],
        ));
        profile
    }

    /// The medium profile: 160 by 120.
    pub fn balanced() -> (profile: ResolutionProfile)
        ensures
            profile@ == balanced_view(),
            profile@.consistent(),
    {
        let profile = ResolutionProfile {
            name: String::from_str("balanced"),
            source_width: 160,
            source_height: 120,
            scales: [(80, 60), (40, 30), (20, 15), (10, 8)],
        };
        assert(profile@ =~= profile_view(
            "balanced"@,
            160,
            120,
            seq![(80, 60), (40, 30), (20, 15), (10, 8)],
        ));
        profile
    }

    /// The high-resolution profile: 320 by 240.
    pub fn accurate() -> (profile: ResolutionProfile)
        ensures
            profile@ == accurate_view(),
            profile@.consistent(),
    {
        let profile = ResolutionProfile {
            name: String::from_str("accurate"),
            source_width: 320,
            source_height: 240,
            scales: [(160, 120), (80, 60), (40, 30), (20, 15)],
        };
        assert(profile@ =~= profile_view(
            "accurate"@,
            320,
            240,
            seq![(160, 120), (80, 60), (40, 30), (20, 15)],
        ));
        profile
    }

    /// The closed set of profiles that the harness offers, smallest first.
    pub fn registry() -> (profiles: Vec<ResolutionProfile>)
        ensures
            profiles@.len() == 3,
            profiles@[0]@ == fast_view(),
            profiles@[1]@ == balanced_view(),
            profiles@[2]@ == accurate_view(),
            forall|i: int| 0 <= i < 3 ==> (#[trigger] profiles@[i])@.consistent(),
    {
        let mut profiles: Vec<ResolutionProfile> = Vec::new();
        profiles.push(ResolutionProfile::fast());
        profiles.push(ResolutionProfile::balanced());
        profiles.push(ResolutionProfile::accurate());
        profiles
    }

    /// The offered profile of the given name, if there is one.
    pub fn find(name: &str) -> (found: Option<ResolutionProfile>)
        ensures
            name@ == "fast"@ ==> found.is_some() && found.unwrap()@ == fast_view(),
            name@ == "balanced"@ ==> found.is_some() && found.unwrap()@ == balanced_view(),
            name@ == "accurate"@ ==> found.is_some() && found.unwrap()@ == accurate_view(),
            found.is_some() ==> found.unwrap()@.name == name@ && found.unwrap()@.consistent(),
            found.is_none() <==> name@ != "fast"@ && name@ != "balanced"@ && name@ != "accurate"@,
    {
        proof {
            reveal_strlit("fast");
            reveal_strlit("balanced");
            reveal_strlit("accurate");
            assert("balanced"@[0] != "accurate"@[0]);
            assert("fast"@.len() != "balanced"@.len());
        }
        let wanted = String::from_str(name);
        let fast = ResolutionProfile::fast();
        if fast.name == wanted {
            return Some(fast);
        }
        let balanced = ResolutionProfile::balanced();
        if balanced.name == wanted {
            return Some(balanced);
        }
        let accurate = ResolutionProfile::accurate();
        if accurate.name == wanted {
            return Some(accurate);
        }
        None
    }

    /// The profile's name.
    pub fn name(&self) -> (name: &str)
        ensures
            name@ == self@.name,
    {
        self.name.as_str()
    }

    /// The width of the source frame.
    pub fn source_width(&self) -> (width: usize)
        ensures
            width == self@.source_width,
            width > 0,
            self@.consistent(),
    {
        proof {
            use_type_invariant(self);
        }
        self.source_width
    }

    /// The height of the source frame.
    pub fn source_height(&self) -> (height: usize)
        ensures
            height == self@.source_height,
            height > 0,
            self@.consistent(),
    {
        proof {
            use_type_invariant(self);
        }
        self.source_height
    }

    /// The width of the feature map at `level`.
    pub fn scale_width(&self, level: usize) -> (width: usize)
        requires
            level < 4,
        ensures
            width == self@.scales[level as int].0,
            width == scaled_extent(self@.source_width, level as int),
            width > 0,
    {
        proof {
            use_type_invariant(self);
            assert(self@.scales[level as int] == (
                scaled_extent(self@.source_width, level as int),
                scaled_extent(self@.source_height, level as int),
            ));
        }
        self.scales[level].0
    }

    /// The height of the feature map at `level`.
    pub fn scale_height(&self, level: usize) -> (height: usize)
        requires
            level < 4,
        ensures
            height == self@.scales[level as int].1,
            height == scaled_extent(self@.source_height, level as int),
            height > 0,
    {
        proof {
            use_type_invariant(self);
            assert(self@.scales[level as int] == (
                scaled_extent(self@.source_width, level as int),
                scaled_extent(self@.source_height, level as int),
            ));
        }
        self.scales[level].1
    }

    /// The shape of the source frame tensor: one frame of three colour
    /// planes.
    pub fn frame_shape(&self) -> (shape: Shape4)
        ensures
            shape@ == self@.frame_shape(),
    {
        let shape = [1, 3, self.source_height, self.source_width];
        assert(shape@ =~= self@.frame_shape());
        shape
    }

    /// The shape of the matte tensor: one frame of one plane.
    pub fn matte_shape(&self) -> (shape: Shape4)
        ensures
            shape@ == self@.matte_shape(),
    {
        let shape = [1, 1, self.source_height, self.source_width];
        assert(shape@ =~= self@.matte_shape());
        shape
    }

    /// The shape of the recurrent feature map at `level`.
    pub fn state_shape(&self, level: usize) -> (shape: Shape4)
        requires
            level < 4,
        ensures
            shape@ == self@.state_shape(level as int),
    {
        let channels: usize = if level == 0 {
            16
        } else if level == 1 {
            20
        } else if level == 2 {
            40
        } else {
            64
        };
        let shape = [1, channels, self.scales[level].1, self.scales[level].0];
        assert(shape@ =~= self@.state_shape(level as int));
        shape
    }
}

} // verus!
