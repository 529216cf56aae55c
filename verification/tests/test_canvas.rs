use ray_tracer::implementations::canvas::Canvas;
use ray_tracer::implementations::tuples::color;

fn fx(v: f64) -> i64 {
    (v * 1_000_000_000_000.0).round() as i64
}

#[test]
fn create_canvas() {
    // canvas should be 10 by 10 pixels wide with each pixel being black
    let canvas = Canvas::new(10, 10);
    for y in 0..10 {
        for x in 0..10 {
            let pixel = canvas.get(x, y);
            assert_eq!(pixel, color(fx(0.0), fx(0.0), fx(0.0)));
        }
    }
}

#[test]
fn write_to_canvas() {
    let mut canvas = Canvas::new(10, 10);
    canvas.set(5, 5, color(fx(1.0), fx(1.0), fx(1.0)));
    assert_eq!(canvas.get(5, 5), color(fx(1.0), fx(1.0), fx(1.0)));
}

#[test]
fn canvas_pixel_bytes() {
    let mut canvas = Canvas::new(4, 4);
    canvas.set(0, 0, color(fx(1.5), fx(-0.3), fx(0.5)));
    canvas.set(1, 0, color(fx(1.0), fx(0.0), fx(0.2)));
    // channels are scaled by 255, rounded, and clamped into [0, 255]
    assert_eq!(canvas.pixel_rgb255(0, 0), (255, 0, 128));
    assert_eq!(canvas.pixel_rgb255(1, 0), (255, 0, 51));
    assert_eq!(canvas.pixel_rgb255(3, 3), (0, 0, 0));
}
