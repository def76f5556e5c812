//! UIKit integer constants. (The floating-point geometry types stay with the
//! platform glue.)

use vstd::prelude::*;

verus! {

pub const UIApplicationStateActive: i64 = 0;
pub const UIApplicationStateInactive: i64 = 1;
pub const UIApplicationStateBackground: i64 = 2;

pub const UIViewAnimationCurveEaseInOut: i64 = 0;
pub const UIViewAnimationCurveEaseIn: i64 = 1;
pub const UIViewAnimationCurveEaseOut: i64 = 2;
pub const UIViewAnimationCurveLinear: i64 = 3;

pub const UIViewAnimationOptionLayoutSubviews: i64 = 0x1;
pub const UIViewAnimationOptionAllowUserInteraction: i64 = 0x2;
pub const UIViewAnimationOptionBeginFromCurrentState: i64 = 0x4;
pub const UIViewAnimationOptionRepeat: i64 = 0x8;
pub const UIViewAnimationOptionAutoreverse: i64 = 0x10;
pub const UIViewAnimationOptionOverrideInheritedDuration: i64 = 0x20;
pub const UIViewAnimationOptionOverrideInheritedCurve: i64 = 0x40;
pub const UIViewAnimationOptionAllowAnimatedContent: i64 = 0x80;
pub const UIViewAnimationOptionShowHideTransitionViews: i64 = 0x100;
pub const UIViewAnimationOptionOverrideInheritedOptions: i64 = 0x200;

pub const UIViewContentModeScaleToFill: i64 = 0;
pub const UIViewContentModeScaleAspectFit: i64 = 1;
pub const UIViewContentModeScaleAspectFill: i64 = 2;
pub const UIViewContentModeRedraw: i64 = 3;
pub const UIViewContentModeCenter: i64 = 4;
pub const UIViewContentModeTop: i64 = 5;
pub const UIViewContentModeBottom: i64 = 6;
pub const UIViewContentModeLeft: i64 = 7;
pub const UIViewContentModeRight: i64 = 8;
pub const UIViewContentModeTopLeft: i64 = 9;
pub const UIViewContentModeTopRight: i64 = 10;
pub const UIViewContentModeBottomLeft: i64 = 11;
pub const UIViewContentModeBottomRight: i64 = 12;

pub const UIControlStateNormal: i64 = 0;
pub const UIControlStateHighlighted: i64 = 0x1;
pub const UIControlStateDisabled: i64 = 0x2;
pub const UIControlStateSelected: i64 = 0x4;
pub const UIControlStateFocused: i64 = 0x8;

pub const UIControlEventTouchDown: i64 = 0x1;
pub const UIControlEventTouchDownRepeat: i64 = 0x2;
pub const UIControlEventTouchDragInside: i64 = 0x4;
pub const UIControlEventTouchDragOutside: i64 = 0x8;
pub const UIControlEventTouchDragEnter: i64 = 0x10;
pub const UIControlEventTouchDragExit: i64 = 0x20;
pub const UIControlEventTouchUpInside: i64 = 0x40;
pub const UIControlEventTouchUpOutside: i64 = 0x80;
pub const UIControlEventTouchCancel: i64 = 0x100;
pub const UIControlEventValueChanged: i64 = 0x1000;

} // verus!
