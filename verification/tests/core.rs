use pathtracer::color::pixel_line;
use pathtracer::progress::decimal_u64;
use pathtracer::progress::fmt_hms;
use pathtracer::progress::fmt_samples;
use pathtracer::raster::pixel_coords;
use pathtracer::raster::total_sample_count;
use pathtracer::raster::valid_render_config;
use pathtracer::rng::random_int;
use pathtracer::select::min_candidate;
use pathtracer::shading::shade_step;
use pathtracer::shading::ShadeAction;

#[test]
fn decimal_renders_plain_numbers() {
    assert_eq!(decimal_u64(0), "0");
    assert_eq!(decimal_u64(7), "7");
    assert_eq!(decimal_u64(10), "10");
    assert_eq!(decimal_u64(105), "105");
    assert_eq!(decimal_u64(18446744073709551615), "18446744073709551615");
}

#[test]
fn sample_counts_below_a_thousand_stay_plain() {
    assert_eq!(fmt_samples(0), "0");
    assert_eq!(fmt_samples(1), "1");
    assert_eq!(fmt_samples(999), "999");
}

#[test]
fn sample_counts_abbreviate_with_one_decimal() {
    assert_eq!(fmt_samples(1000), "1.0K");
    assert_eq!(fmt_samples(1500), "1.5K");
    assert_eq!(fmt_samples(2340000), "2.3M");
    assert_eq!(fmt_samples(1000000000), "1.0B");
    assert_eq!(fmt_samples(59414270000), "59.4B");
}

#[test]
fn sample_counts_round_half_up() {
    assert_eq!(fmt_samples(1949), "1.9K");
    assert_eq!(fmt_samples(1950), "2.0K");
    assert_eq!(fmt_samples(999949), "999.9K");
    assert_eq!(fmt_samples(999950), "1000.0K");
}

#[test]
fn largest_sample_count_still_formats() {
    assert_eq!(fmt_samples(u64::MAX), "18446744073.7B");
}

#[test]
fn elapsed_time_is_zero_padded() {
    assert_eq!(fmt_hms(0), "00:00:00");
    assert_eq!(fmt_hms(59), "00:00:59");
    assert_eq!(fmt_hms(3661), "01:01:01");
    assert_eq!(fmt_hms(86399), "23:59:59");
}

#[test]
fn elapsed_hours_keep_all_digits() {
    assert_eq!(fmt_hms(360000), "100:00:00");
}

#[test]
fn pixel_lines_are_space_separated_decimals() {
    assert_eq!(pixel_line(0, 0, 0), "0 0 0");
    assert_eq!(pixel_line(12, 34, 56), "12 34 56");
}

#[test]
fn full_white_pixel_stays_within_a_byte() {
    assert_eq!(pixel_line(255, 255, 255), "255 255 255");
}

#[test]
fn pixel_coords_run_in_raster_order() {
    let coords = pixel_coords(3, 2);
    assert_eq!(coords, vec![(0, 0), (1, 0), (2, 0), (0, 1), (1, 1), (2, 1)]);
}

#[test]
fn pixel_coords_cover_each_pixel_once() {
    let width: u64 = 17;
    let height: u64 = 11;
    let coords = pixel_coords(width, height);
    assert_eq!(coords.len() as u64, width * height);
    for j in 0..height {
        for i in 0..width {
            assert_eq!(coords[(j * width + i) as usize], (i, j));
        }
    }
}

#[test]
fn degenerate_images_have_no_pixels() {
    assert_eq!(pixel_coords(0, 5).len(), 0);
    assert_eq!(pixel_coords(5, 0).len(), 0);
    assert_eq!(pixel_coords(1, 1), vec![(0, 0)]);
}

#[test]
fn total_sample_count_multiplies_out() {
    assert_eq!(total_sample_count(1028, 578, 100), 1028 * 578 * 100);
    assert_eq!(total_sample_count(0, 578, 100), 0);
    assert_eq!(total_sample_count(1028, 578, 0), 0);
}

#[test]
fn random_int_stays_in_range() {
    for _ in 0..500 {
        let r = random_int(-3, 17);
        assert!((-3..17).contains(&r));
    }
}

#[test]
fn random_int_on_an_empty_range_returns_its_bound() {
    assert_eq!(random_int(5, 5), 5);
    assert_eq!(random_int(-2, -2), -2);
}

#[test]
fn random_int_actually_varies() {
    let first = random_int(0, 1000000);
    let mut saw_other = false;
    for _ in 0..200 {
        if random_int(0, 1000000) != first {
            saw_other = true;
        }
    }
    assert!(saw_other);
}

#[test]
fn spent_bounce_budget_ends_the_recursion() {
    assert_eq!(shade_step(0, true, true), ShadeAction::Exhausted);
    assert_eq!(shade_step(0, false, false), ShadeAction::Exhausted);
}

#[test]
fn escaped_rays_take_the_background() {
    assert_eq!(shade_step(4, false, false), ShadeAction::Background);
}

#[test]
fn absorbed_rays_keep_emission_alone() {
    assert_eq!(shade_step(4, true, false), ShadeAction::EmissionOnly);
}

#[test]
fn scattered_rays_spend_one_bounce() {
    assert_eq!(
        shade_step(4, true, true),
        ShadeAction::Scatter { remaining_depth: 3 }
    );
    assert_eq!(
        shade_step(1, true, true),
        ShadeAction::Scatter { remaining_depth: 0 }
    );
}

#[test]
fn invalid_render_configurations_are_rejected() {
    assert!(valid_render_config(600, 1000, 10));
    assert!(!valid_render_config(0, 1000, 10));
    assert!(!valid_render_config(600, 0, 10));
    assert!(!valid_render_config(600, 1000, 0));
}

#[test]
fn nearest_valid_candidate_wins() {
    assert_eq!(min_candidate(&vec![Some(30), Some(10), None, Some(20)]), Some(1));
    assert_eq!(min_candidate(&vec![None, None, Some(7), None]), Some(2));
    assert_eq!(min_candidate(&vec![Some(5)]), Some(0));
}

#[test]
fn no_valid_candidate_means_a_miss() {
    assert_eq!(min_candidate(&vec![None, None, None, None]), None);
    assert_eq!(min_candidate(&vec![]), None);
}

#[test]
fn tied_candidates_keep_the_first() {
    assert_eq!(min_candidate(&vec![None, Some(4), Some(4), Some(9)]), Some(1));
}
