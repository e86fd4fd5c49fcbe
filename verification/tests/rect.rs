use bevy_ui_style_builder::Breadth;
use bevy_ui_style_builder::Either;
use bevy_ui_style_builder::NumRect;
use bevy_ui_style_builder::UiRect;
use bevy_ui_style_builder::Val;

const ZERO: Breadth<f32> = Breadth::Px(0.0);

#[test]
fn new_sets_each_edge() {
    let rect = NumRect::new(
        Breadth::Px(1.0_f32),
        Breadth::Percent(2.0),
        Breadth::Px(3.0),
        Breadth::Percent(4.0),
    );
    assert_eq!(rect.left, Breadth::Px(1.0));
    assert_eq!(rect.right, Breadth::Percent(2.0));
    assert_eq!(rect.top, Breadth::Px(3.0));
    assert_eq!(rect.bottom, Breadth::Percent(4.0));
}

#[test]
fn all_sets_every_edge() {
    let value = Breadth::Percent(12.0_f32);
    let rect = NumRect::all(value);
    assert_eq!(rect.left, value);
    assert_eq!(rect.right, value);
    assert_eq!(rect.top, value);
    assert_eq!(rect.bottom, value);
}

#[test]
fn horizontal_sets_left_and_right() {
    let value = Breadth::Px(8.0_f32);
    let rect = NumRect::horizontal(value);
    assert_eq!(rect.left, value);
    assert_eq!(rect.right, value);
    assert_eq!(rect.top, ZERO);
    assert_eq!(rect.bottom, ZERO);
}

#[test]
fn horizontal_percent_leaves_zero_pixels_above_and_below() {
    let rect = NumRect::horizontal(Breadth::Percent(8.0_f32));
    assert_eq!(rect.left, Breadth::Percent(8.0));
    assert_eq!(rect.right, Breadth::Percent(8.0));
    assert_eq!(rect.top, Breadth::Px(0.0));
    assert_eq!(rect.bottom, Breadth::Px(0.0));
}

#[test]
fn vertical_sets_top_and_bottom() {
    let value = Breadth::Percent(8.0_f32);
    let rect = NumRect::vertical(value);
    assert_eq!(rect.top, value);
    assert_eq!(rect.bottom, value);
    assert_eq!(rect.left, ZERO);
    assert_eq!(rect.right, ZERO);
}

#[test]
fn left_sets_one_edge() {
    let value = Breadth::Px(3.0_f32);
    let rect = NumRect::left(value);
    assert_eq!(rect.left, value);
    assert_eq!(rect.right, ZERO);
    assert_eq!(rect.top, ZERO);
    assert_eq!(rect.bottom, ZERO);
}

#[test]
fn right_sets_one_edge() {
    let value = Breadth::Px(3.0_f32);
    let rect = NumRect::right(value);
    assert_eq!(rect.right, value);
    assert_eq!(rect.left, ZERO);
    assert_eq!(rect.top, ZERO);
    assert_eq!(rect.bottom, ZERO);
}

#[test]
fn top_sets_one_edge() {
    let value = Breadth::Percent(3.0_f32);
    let rect = NumRect::top(value);
    assert_eq!(rect.top, value);
    assert_eq!(rect.left, ZERO);
    assert_eq!(rect.right, ZERO);
    assert_eq!(rect.bottom, ZERO);
}

#[test]
fn bottom_sets_one_edge() {
    let value = Breadth::Percent(3.0_f32);
    let rect = NumRect::bottom(value);
    assert_eq!(rect.bottom, value);
    assert_eq!(rect.left, ZERO);
    assert_eq!(rect.right, ZERO);
    assert_eq!(rect.top, ZERO);
}

#[test]
fn default_rect_is_zero_pixels_all_round() {
    let rect = NumRect::<f32>::default();
    assert_eq!(rect.left, ZERO);
    assert_eq!(rect.right, ZERO);
    assert_eq!(rect.top, ZERO);
    assert_eq!(rect.bottom, ZERO);
}

#[test]
fn any_four_breadths_make_a_rect() {
    let rect = NumRect::new(
        Breadth::Px(-1.0_f32),
        Breadth::Percent(-200.0),
        Breadth::Px(f32::INFINITY),
        Breadth::Percent(0.0),
    );
    assert_eq!(rect.left, Breadth::Px(-1.0));
    assert_eq!(rect.right, Breadth::Percent(-200.0));
    assert_eq!(rect.top, Breadth::Px(f32::INFINITY));
    assert_eq!(rect.bottom, Breadth::Percent(0.0));
}

#[test]
fn rect_of_integers() {
    let rect = NumRect::vertical(Breadth::Px(4_i32));
    assert_eq!(rect.top, Breadth::Px(4));
    assert_eq!(rect.bottom, Breadth::Px(4));
    assert_eq!(rect.left, Breadth::Px(0));
    assert_eq!(rect.right, Breadth::Px(0));
}

#[test]
fn rect_converts_edge_by_edge() {
    let rect = NumRect::new(
        Breadth::Px(1.0_f32),
        Breadth::Percent(2.0),
        Breadth::Px(3.0),
        Breadth::Percent(4.0),
    );
    assert_eq!(
        UiRect::from(rect),
        UiRect {
            left: Val::Px(1.0),
            right: Val::Percent(2.0),
            top: Val::Px(3.0),
            bottom: Val::Percent(4.0),
        }
    );
}

#[test]
fn ui_rect_all_sets_every_edge() {
    let rect = UiRect::<f32>::all(Val::Auto);
    assert_eq!(
        rect,
        UiRect {
            left: Val::Auto,
            right: Val::Auto,
            top: Val::Auto,
            bottom: Val::Auto,
        }
    );
    assert_eq!(UiRect::all(Val::Px(2.0_f32)).bottom, Val::Px(2.0));
}

#[test]
fn a_breadth_converts_into_the_left_case() {
    let either: Either<Breadth<f32>, NumRect<f32>> = Breadth::Px(2.0).into();
    assert!(matches!(either, Either::Left(Breadth::Px(value)) if value == 2.0));
}

#[test]
fn a_rect_converts_into_the_right_case() {
    let either: Either<Breadth<f32>, NumRect<f32>> = NumRect::left(Breadth::Px(2.0)).into();
    match either {
        Either::Right(rect) => {
            assert_eq!(rect.left, Breadth::Px(2.0));
            assert_eq!(rect.right, ZERO);
        }
        Either::Left(_) => panic!("a rectangle became a single breadth"),
    }
}

#[test]
fn a_val_converts_into_the_left_case() {
    let either: Either<Val<f32>, UiRect<f32>> = Val::Percent(5.0).into();
    assert!(matches!(either, Either::Left(Val::Percent(value)) if value == 5.0));
}

#[test]
fn a_ui_rect_converts_into_the_right_case() {
    let either: Either<Val<f32>, UiRect<f32>> = UiRect::all(Val::Undefined).into();
    assert!(matches!(either, Either::Right(rect) if rect == UiRect::all(Val::Undefined)));
}

#[test]
fn a_single_breadth_means_every_edge() {
    let either: Either<Breadth<f32>, NumRect<f32>> = Either::Left(Breadth::Percent(6.0));
    let rect = either.into_rect();
    assert_eq!(rect.left, Breadth::Percent(6.0));
    assert_eq!(rect.right, Breadth::Percent(6.0));
    assert_eq!(rect.top, Breadth::Percent(6.0));
    assert_eq!(rect.bottom, Breadth::Percent(6.0));
}

#[test]
fn a_given_rect_is_taken_as_it_is() {
    let given = NumRect::new(
        Breadth::Px(1.0_f32),
        Breadth::Percent(2.0),
        Breadth::Px(3.0),
        Breadth::Percent(4.0),
    );
    let rect = Either::<Breadth<f32>, NumRect<f32>>::Right(given).into_rect();
    assert_eq!(rect.left, given.left);
    assert_eq!(rect.right, given.right);
    assert_eq!(rect.top, given.top);
    assert_eq!(rect.bottom, given.bottom);
}

#[test]
fn a_single_val_means_every_edge() {
    let either: Either<Val<f32>, UiRect<f32>> = Either::Left(Val::Px(5.0));
    assert_eq!(either.into_rect(), UiRect::all(Val::Px(5.0)));
}

#[test]
fn a_given_ui_rect_is_taken_as_it_is() {
    let given = UiRect {
        left: Val::Px(1.0_f32),
        right: Val::Auto,
        top: Val::Undefined,
        bottom: Val::Percent(4.0),
    };
    let either: Either<Val<f32>, UiRect<f32>> = Either::Right(given);
    assert_eq!(either.into_rect(), given);
}
