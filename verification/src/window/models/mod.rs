//! What can be shown in a window: a list of points, a list of point matches,
//! or a world of landmarks and keyframes.

pub mod matches;
pub mod points;
pub mod world;

pub use self::matches::{FeatureMatch, MatchesFrame, MatchesModel, MatchesRenderer};
pub use self::points::PointsModel;
pub use self::world::{
    trajectory, KeyFrame, RecordSizes, WorldColors, WorldFrame, WorldModel, WorldRenderer,
};
