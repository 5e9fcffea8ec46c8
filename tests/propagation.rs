use soundprop::arena::{must_remove, next_generation, Domain, RayFate, RayProbe};
use soundprop::grid::Grid;
use soundprop::material::MaterialType;
use soundprop::medium::{crossing, locate, BoundaryLevel, Crossing, Medium};

#[test]
fn open_water_and_air_are_no_interface() {
    assert_eq!(crossing(&Medium::Water, &Medium::Air), Crossing::Stay);
    assert_eq!(crossing(&Medium::Water, &Medium::Water), Crossing::Stay);
}

#[test]
fn entering_a_layer_reflects_off_it() {
    let sand = Medium::Layer { boundary: 0, material: MaterialType::Sand };
    assert_eq!(crossing(&Medium::Water, &sand), Crossing::Interface { boundary: 0 });
    let basalt = Medium::Layer { boundary: 3, material: MaterialType::Basalt };
    assert_eq!(crossing(&sand, &basalt), Crossing::Interface { boundary: 3 });
}

#[test]
fn leaving_a_layer_reflects_off_it() {
    let sand = Medium::Layer { boundary: 2, material: MaterialType::Sand };
    assert_eq!(crossing(&sand, &Medium::Water), Crossing::Interface { boundary: 2 });
}

#[test]
fn same_material_is_no_interface() {
    let a = Medium::Layer { boundary: 0, material: MaterialType::Sand };
    let b = Medium::Layer { boundary: 1, material: MaterialType::Sand };
    assert_eq!(crossing(&a, &b), Crossing::Stay);
}

#[test]
fn survivors_keep_order_and_reflections_follow() {
    let fates = vec![
        RayFate::Advanced(10u32),
        RayFate::Removed,
        RayFate::Split { transmitted: 30, reflected: 31 },
        RayFate::Advanced(40),
        RayFate::Split { transmitted: 50, reflected: 51 },
        RayFate::Removed,
    ];
    assert_eq!(next_generation(&fates), vec![10, 30, 40, 50, 31, 51]);
}

#[test]
fn all_rays_removed_leaves_none() {
    let fates: Vec<RayFate<u8>> = vec![RayFate::Removed, RayFate::Removed];
    assert!(next_generation(&fates).is_empty());
    assert!(next_generation::<u8>(&vec![]).is_empty());
}

#[test]
fn single_sample_cell_holds_that_sample() {
    let mut grid: Grid<(u64, u64)> = Grid::new();
    assert_eq!(grid.len(), 0);
    grid.append(4, 7, (25, 0));
    assert_eq!(grid.len(), 1);
    assert_eq!(grid.samples_at(4, 7), &[(25, 0)]);
    assert!(grid.samples_at(7, 4).is_empty());
    let cell = grid.cell(0);
    assert_eq!((cell.column, cell.row), (4, 7));
}

#[test]
fn samples_in_one_cell_keep_arrival_order() {
    let mut grid: Grid<u32> = Grid::new();
    grid.append(1, 1, 5);
    grid.append(2, 0, 6);
    grid.append(1, 1, 7);
    assert_eq!(grid.len(), 2);
    assert_eq!(grid.samples_at(1, 1), &[5, 7]);
    assert_eq!(grid.samples_at(2, 0), &[6]);
    assert_eq!(grid.cell(1).column, 2);
}

#[test]
fn clearing_starts_a_fresh_frame() {
    let mut grid: Grid<u32> = Grid::new();
    grid.append(u32::MAX, 0, 1);
    grid.append(0, u32::MAX, 2);
    assert_eq!(grid.len(), 2);
    grid.clear();
    assert_eq!(grid.len(), 0);
    assert!(grid.samples_at(u32::MAX, 0).is_empty());
    grid.append(0, u32::MAX, 3);
    assert_eq!(grid.samples_at(0, u32::MAX), &[3]);
}


fn level(height: Option<i64>, material: MaterialType) -> BoundaryLevel {
    BoundaryLevel { height, material }
}

#[test]
fn without_boundaries_air_is_above_the_surface() {
    assert_eq!(locate(5, &vec![]), Medium::Air);
    assert_eq!(locate(0, &vec![]), Medium::Water);
    assert_eq!(locate(-3, &vec![]), Medium::Water);
    let absent = vec![level(None, MaterialType::Sand)];
    assert_eq!(locate(-3, &absent), Medium::Water);
}

#[test]
fn below_a_boundary_is_inside_it() {
    let floor = vec![level(Some(-500), MaterialType::Sand)];
    assert_eq!(locate(-600, &floor), Medium::Layer { boundary: 0, material: MaterialType::Sand });
    assert_eq!(locate(-500, &floor), Medium::Water);
    assert_eq!(locate(-400, &floor), Medium::Water);
}

#[test]
fn the_tallest_boundary_claims_the_ray() {
    let layers = vec![
        level(Some(-3500), MaterialType::TurbiditeArea),
        level(Some(-2500), MaterialType::Sand),
    ];
    let sand = Medium::Layer { boundary: 1, material: MaterialType::Sand };
    assert_eq!(locate(-3000, &layers), sand);
    assert_eq!(locate(-4000, &layers), sand);
    let outside_window = vec![
        level(Some(-3500), MaterialType::TurbiditeArea),
        level(None, MaterialType::Sand),
    ];
    assert_eq!(
        locate(-4000, &outside_window),
        Medium::Layer { boundary: 0, material: MaterialType::TurbiditeArea }
    );
}

#[test]
fn equal_heights_go_to_the_first_boundary() {
    let tied = vec![
        level(None, MaterialType::Shale),
        level(Some(-10), MaterialType::Basalt),
        level(Some(-10), MaterialType::Sand),
    ];
    assert_eq!(locate(-20, &tied), Medium::Layer { boundary: 1, material: MaterialType::Basalt });
}

#[test]
fn head_on_ray_into_a_sand_floor_meets_an_interface() {
    let floor = vec![level(Some(-500), MaterialType::Sand)];
    let before = locate(-499, &floor);
    let after = locate(-501, &floor);
    assert_eq!(before, Medium::Water);
    assert_eq!(crossing(&before, &after), Crossing::Interface { boundary: 0 });
}

#[test]
fn rays_leave_when_outside_or_spent() {
    let domain = Domain { x_min: -100, x_max: 100, height_min: -50, height_max: 50 };
    let ray = |x, height, intensity| RayProbe { x, height, intensity };
    assert!(!must_remove(&ray(Some(0), Some(0), Some(10)), &domain, 5));
    assert!(!must_remove(&ray(Some(100), Some(-50), Some(5)), &domain, 5));
    assert!(must_remove(&ray(Some(101), Some(0), Some(10)), &domain, 5));
    assert!(must_remove(&ray(Some(-101), Some(0), Some(10)), &domain, 5));
    assert!(must_remove(&ray(Some(0), Some(51), Some(10)), &domain, 5));
    assert!(must_remove(&ray(Some(0), Some(-51), Some(10)), &domain, 5));
    assert!(must_remove(&ray(Some(0), Some(0), Some(4)), &domain, 5));
    assert!(must_remove(&ray(Some(0), Some(0), None), &domain, 5));
    assert!(must_remove(&ray(None, Some(0), Some(10)), &domain, 5));
    assert!(must_remove(&ray(Some(0), None, Some(10)), &domain, 5));
}
