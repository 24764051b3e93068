use lyon_geom::euclid::{Point2D, Transform2D, UnknownUnit};
use lyon_geom::{CubicBezierSegment, QuadraticBezierSegment};
use svg2polylines::{
    parse, parse_path, parse_transform, ArcCommand, ArcShape, ChainLink, CoordinatePair, Error,
    Matrix, PathSegment, Polyline, Stroke,
};

const FLATTENING_TOLERANCE: f64 = 0.15;

fn pair(x: f64, y: f64) -> CoordinatePair<f64> {
    CoordinatePair::new(x, y)
}

fn segment(s: svgtypes::PathSegment) -> PathSegment<f64> {
    match s {
        svgtypes::PathSegment::MoveTo { abs, x, y } => PathSegment::MoveTo { abs, x, y },
        svgtypes::PathSegment::LineTo { abs, x, y } => PathSegment::LineTo { abs, x, y },
        svgtypes::PathSegment::HorizontalLineTo { abs, x } => PathSegment::HorizontalLineTo { abs, x },
        svgtypes::PathSegment::VerticalLineTo { abs, y } => PathSegment::VerticalLineTo { abs, y },
        svgtypes::PathSegment::CurveTo { abs, x1, y1, x2, y2, x, y } => PathSegment::CurveTo { abs, x1, y1, x2, y2, x, y },
        svgtypes::PathSegment::SmoothCurveTo { abs, x2, y2, x, y } => PathSegment::SmoothCurveTo { abs, x2, y2, x, y },
        svgtypes::PathSegment::Quadratic { abs, x1, y1, x, y } => PathSegment::Quadratic { abs, x1, y1, x, y },
        svgtypes::PathSegment::SmoothQuadratic { abs, x, y } => PathSegment::SmoothQuadratic { abs, x, y },
        svgtypes::PathSegment::EllipticalArc { abs, rx, ry, x_axis_rotation, large_arc, sweep, x, y } => {
            PathSegment::EllipticalArc { abs, rx, ry, x_axis_rotation, large_arc, sweep, x, y }
        }
        svgtypes::PathSegment::ClosePath { abs } => PathSegment::ClosePath { abs },
    }
}

/// Splits path data into commands; where the data is malformed, the
/// commands before the fault and the text of the fault.
pub fn tokenize(expr: &String) -> (Vec<PathSegment<f64>>, Option<String>) {
    let mut segments = Vec::new();
    for item in svgtypes::PathParser::from(expr.as_str()) {
        match item {
            Ok(s) => segments.push(segment(s)),
            Err(e) => return (segments, Some(e.to_string())),
        }
    }
    (segments, None)
}

/// Reads one matrix element.
pub fn number(text: &String) -> Option<f64> {
    text.parse().ok()
}

/// Moves a point under a matrix.
pub fn apply(t: &Matrix<f64>, p: CoordinatePair<f64>) -> CoordinatePair<f64> {
    let t: Transform2D<f64, f64, f64> = Transform2D::new(t.a, t.b, t.c, t.d, t.e, t.f);
    let Point2D { x, y, .. } = t.transform_point(Point2D::new(p.x, p.y));
    pair(x, y)
}

fn point(p: CoordinatePair<f64>) -> Point2D<f64, UnknownUnit> {
    Point2D::new(p.x, p.y)
}

/// The sum of two numbers.
pub fn plus(a: f64, b: f64) -> f64 {
    a + b
}

/// The difference of two numbers.
pub fn minus(a: f64, b: f64) -> f64 {
    a - b
}

/// The points of a curve, flattened with the tolerance `tol`: those behind
/// its start, up to and with its end.
pub fn eval(stroke: Stroke<f64>, tol: f64) -> Vec<CoordinatePair<f64>> {
    let mut out = Vec::new();
    match stroke {
        Stroke::Cubic { from, ctrl1, ctrl2, to } => {
            let curve = CubicBezierSegment {
                from: point(from),
                ctrl1: point(ctrl1),
                ctrl2: point(ctrl2),
                to: point(to),
            };
            for p in curve.flattened(tol) {
                out.push(pair(p.x, p.y));
            }
        }
        Stroke::Quadratic { from, ctrl, to } => {
            let curve = QuadraticBezierSegment { from: point(from), ctrl: point(ctrl), to: point(to) };
            for p in curve.flattened(tol) {
                out.push(pair(p.x, p.y));
            }
        }
    }
    out
}

/// Finds the shape of an arc from its end points, radii, rotation (in
/// degrees) and flags, by way of the centre of its ellipse: nothing where
/// start and end coincide, a line where a radius is zero or the arc has no
/// extent, else a chain of at most four cubic curves.
pub fn arc(command: ArcCommand<f64>) -> ArcShape<f64> {
    let ArcCommand { from, to: end, rx, ry, x_axis_rotation, large_arc, sweep } = command;
    let (last_x, last_y) = (from.x, from.y);
    let (x_end, y_end) = (end.x, end.y);

    // Identical end points: the arc is omitted.
    let error_margin = f64::EPSILON;
    if (last_x - x_end).abs() < error_margin && (last_y - y_end).abs() < error_margin {
        return ArcShape::Nothing;
    }
    // A zero radius: a straight line.
    if rx == 0.0 || ry == 0.0 {
        return ArcShape::Line;
    }
    // The sign of the radii is ignored.
    let mut rx = rx.abs();
    let mut ry = ry.abs();

    let angle_rad = (x_axis_rotation % 360.0) * (std::f64::consts::PI / 180.0);
    let cos_angle = angle_rad.cos();
    let sin_angle = angle_rad.sin();

    // The midpoint between start and end, rotated into the frame of the ellipse.
    let dx2 = (last_x - x_end) / 2.0;
    let dy2 = (last_y - y_end) / 2.0;
    let x1 = cos_angle * dx2 + sin_angle * dy2;
    let y1 = -sin_angle * dx2 + cos_angle * dy2;

    let mut rx_sq = rx * rx;
    let mut ry_sq = ry * ry;
    let x1_sq = x1 * x1;
    let y1_sq = y1 * y1;

    // Radii that are too small are scaled up.
    let radii_check = x1_sq / rx_sq + y1_sq / ry_sq;
    if radii_check > 0.99999 {
        let radii_scale = radii_check.sqrt() * 1.00001;
        rx *= radii_scale;
        ry *= radii_scale;
        rx_sq = rx * rx;
        ry_sq = ry * ry;
    }

    // The centre in the frame of the ellipse.
    let mut sign = if large_arc == sweep { -1.0 } else { 1.0 };
    let sq = ((rx_sq * ry_sq) - (rx_sq * y1_sq) - (ry_sq * x1_sq))
        / ((rx_sq * y1_sq) + (ry_sq * x1_sq));
    let sq = if sq < 0.0 { 0.0 } else { sq };
    let coef = sign * sq.sqrt();
    let cx1 = coef * ((rx * y1) / ry);
    let cy1 = coef * -((ry * x1) / rx);

    // The centre in world space.
    let sx2 = (last_x + x_end) / 2.0;
    let sy2 = (last_y + y_end) / 2.0;
    let cx = sx2 + (cos_angle * cx1 - sin_angle * cy1);
    let cy = sy2 + (sin_angle * cx1 + cos_angle * cy1);

    // Start angle and extent from the unit vectors.
    let ux = (x1 - cx1) / rx;
    let uy = (y1 - cy1) / ry;
    let vx = (-x1 - cx1) / rx;
    let vy = (-y1 - cy1) / ry;

    let mut n = ((ux * ux) + (uy * uy)).sqrt();
    let mut p = ux;
    sign = if uy < 0.0 { -1.0 } else { 1.0 };
    let mut angle_start = sign * (p / n).acos();

    n = ((ux * ux + uy * uy) * (vx * vx + vy * vy)).sqrt();
    p = ux * vx + uy * vy;
    sign = if (ux * vy - uy * vx) < 0.0 { -1.0 } else { 1.0 };
    let val = p / n;
    let checked_arc_cos = if val < -1.0 {
        std::f64::consts::PI
    } else if val > 1.0 {
        0.0
    } else {
        val.acos()
    };
    let mut angle_extent = sign * checked_arc_cos;
    if angle_extent == 0.0 {
        return ArcShape::Line;
    }

    let two_pi = std::f64::consts::PI * 2.0;
    if !sweep && angle_extent > 0.0 {
        angle_extent -= two_pi;
    } else if sweep && angle_extent < 0.0 {
        angle_extent += two_pi;
    }
    angle_extent %= two_pi;
    angle_start %= two_pi;

    // Each curve covers at most a quarter turn.
    let num_segments = (angle_extent.abs() * 2.0 / std::f64::consts::PI).ceil() as u64;
    let angle_increment: f64 = angle_extent / num_segments as f64;
    let control_length =
        4.0 / 3.0 * (angle_increment / 2.0).sin() / (1.0 + (angle_increment / 2.0).cos());

    let mut unit = Vec::with_capacity(num_segments as usize * 3);
    for i in 0..num_segments {
        let mut angle = angle_start + i as f64 * angle_increment;
        let mut dx = angle.cos();
        let mut dy = angle.sin();
        unit.push((dx - control_length * dy, dy + control_length * dx));
        angle += angle_increment;
        dx = angle.cos();
        dy = angle.sin();
        unit.push((dx + control_length * dy, dy - control_length * dx));
        unit.push((dx, dy));
    }
    if unit.is_empty() {
        return ArcShape::Nothing;
    }

    // Scale, rotate about the centre, translate.
    let points: Vec<CoordinatePair<f64>> = unit
        .into_iter()
        .map(|(a, b)| (a * rx, b * ry))
        .map(|(a, b)| {
            let px = a - cx1;
            let py = b - cy1;
            (px * cos_angle - py * sin_angle + cx1, px * sin_angle + py * cos_angle + cy1)
        })
        .map(|(a, b)| pair(a + cx, b + cy))
        .collect();

    let curves = points
        .chunks(3)
        .map(|c| ChainLink { ctrl1: c[0], ctrl2: c[1], to: c[2] })
        .collect();
    ArcShape::Curves { curves }
}

fn convert(svg: &str, tol: f64, preprocess: bool) -> Result<Vec<Polyline<f64>>, Error> {
    parse(svg, tol, preprocess, &tokenize, &plus, &minus, &eval, &arc, &number, &apply)
}

fn path(expr: &str) -> Result<Vec<Polyline<f64>>, Error> {
    parse_path(&expr.to_string(), FLATTENING_TOLERANCE, &tokenize, &plus, &minus, &eval, &arc)
}

fn command(from: CoordinatePair<f64>, to: CoordinatePair<f64>, rx: f64, ry: f64, large_arc: bool) -> ArcCommand<f64> {
    ArcCommand { from, to, rx, ry, x_axis_rotation: 0., large_arc, sweep: true }
}

fn transform(m: Matrix<f64>) -> Transform2D<f64, f64, f64> {
    Transform2D::new(m.a, m.b, m.c, m.d, m.e, m.f)
}

#[test]
fn test_parse_simple_absolute_nonclosed() {
    let input = r#"
        <?xml version="1.0" encoding="UTF-8" standalone="no"?>
        <svg xmlns="http://www.w3.org/2000/svg" version="1.1">
            <path d="M 113,35 H 40 L -39,49 H 40" />
        </svg>
    "#
    .trim();
    let result = convert(input, FLATTENING_TOLERANCE, true).unwrap();
    assert_eq!(result.len(), 1);
    assert_eq!(result[0].len(), 4);
    assert_eq!(result[0].get(0), (113., 35.).into());
    assert_eq!(result[0].get(1), (40., 35.).into());
    assert_eq!(result[0].get(2), (-39., 49.).into());
    assert_eq!(result[0].get(3), (40., 49.).into());
}

#[test]
fn test_parse_simple_absolute_closed() {
    let input = r#"
        <?xml version="1.0" encoding="UTF-8" standalone="no"?>
        <svg xmlns="http://www.w3.org/2000/svg" version="1.1">
            <path d="M 10,10 20,15 10,20 Z" />
        </svg>
    "#
    .trim();
    let result = convert(input, FLATTENING_TOLERANCE, true).unwrap();
    assert_eq!(result.len(), 1);
    assert_eq!(result[0].len(), 4);
    assert_eq!(result[0].get(0), (10., 10.).into());
    assert_eq!(result[0].get(1), (20., 15.).into());
    assert_eq!(result[0].get(2), (10., 20.).into());
    assert_eq!(result[0].get(3), (10., 10.).into());
}

#[test]
fn test_regression_issue_5() {
    let input = r#"
        <?xml version="1.0" encoding="UTF-8" standalone="no"?>
        <svg xmlns="http://www.w3.org/2000/svg" version="1.1">
            <path d="M 10,10 20,15 10,20 Z m 0,40 H 0" />
        </svg>
    "#
    .trim();
    let result = convert(input, FLATTENING_TOLERANCE, true).unwrap();
    assert_eq!(result.len(), 2);

    assert_eq!(result[0].len(), 4);
    assert_eq!(result[0].get(0), (10., 10.).into());
    assert_eq!(result[0].get(1), (20., 15.).into());
    assert_eq!(result[0].get(2), (10., 20.).into());
    assert_eq!(result[0].get(3), (10., 10.).into());

    assert_eq!(result[1].len(), 2);
    assert_eq!(result[1].get(0), (10., 50.).into());
    assert_eq!(result[1].get(1), (0., 50.).into());
}

#[test]
fn test_regression_issue_7() {
    let input = r#"
        <?xml version="1.0" encoding="UTF-8" standalone="no"?>
        <svg xmlns="http://www.w3.org/2000/svg" version="1.1">
            <path d="M 10,100 40,70 h 10 m -20,40 10,-20" />
        </svg>
    "#
    .trim();
    let result = convert(input, FLATTENING_TOLERANCE, true).unwrap();

    // 2 Polylines
    assert_eq!(result.len(), 2);

    // First line has three points
    assert_eq!(result[0].len(), 3);
    assert_eq!(result[0].get(0), (10., 100.).into());
    assert_eq!(result[0].get(1), (40., 70.).into());
    assert_eq!(result[0].get(2), (50., 70.).into());

    // Second line has two points
    assert_eq!(result[1].len(), 2);
    assert_eq!(result[1].get(0), (30., 110.).into());
    assert_eq!(result[1].get(1), (40., 90.).into());
}

#[test]
fn test_smooth() {
    let input = r#"
        <?xml version="1.0" encoding="UTF-8" standalone="no"?>
        <svg xmlns="http://www.w3.org/2000/svg" version="1.1">
            <path d="M 10 20 C 10 20 11 17 12 15 S 2 7 10 20 z" />
            <path d="M 10 20 C 10 20 11 17 12 15 s -10 -8 -2 5 z" />
            <path d="M 10 20 c 0 0 1 -3 2 -5 S 2 7 10 20 z" />
            <path d="M 10 20 c 0 0 1 -3 2 -5 s -10 -8 -2 5 z" />
        </svg>
    "#
    .trim();
    let result = convert(input, FLATTENING_TOLERANCE, true).unwrap();
    assert_eq!(result.len(), 4);
    assert_eq!(result[0], result[1]);
    assert_eq!(result[0], result[2]);
    assert_eq!(result[0], result[3]);
}

/// Test the flattening of a quadratic curve.
#[test]
fn test_quadratic_curve() {
    let input = r#"
        <svg xmlns="http://www.w3.org/2000/svg" version="1.1">
            <path d="m 0.10650371,93.221877 c 0,0 3.74188519,-5.078118 9.62198629,-3.474499 5.880103,1.60362 4.276438,7.216278 4.276438,7.216278"/>
        </svg>
    "#.trim();
    let result = convert(input, FLATTENING_TOLERANCE, false).unwrap();
    assert_eq!(result.len(), 1);
    assert_eq!(result[0].len(), 11);
    let expected = vec![
        CoordinatePair::new(0.10650371, 93.221877),
        CoordinatePair::new(1.294403614814815, 91.96472118518521),
        CoordinatePair::new(2.6361703106158494, 90.93256152046511),
        CoordinatePair::new(4.620522695185185, 89.9354544814815),
        CoordinatePair::new(6.885789998771603, 89.45353374978681),
        CoordinatePair::new(9.72849, 89.74737800000001),
        CoordinatePair::new(12.196509552744402, 90.92131377228664),
        CoordinatePair::new(13.450575259259264, 92.33098488888892),
        CoordinatePair::new(14.083775088013304, 94.01611039126513),
        CoordinatePair::new(14.20291140740741, 95.44912911111113),
        CoordinatePair::new(14.004928, 96.96365600000001),
    ];
    // The flattening goes through `powf` and `sqrt`, whose last digit is
    // the platform's: the points are held to a billionth.
    for (found, wanted) in result[0].as_ref().iter().zip(expected.iter()) {
        assert!((found.x - wanted.x).abs() < 1e-9, "{:?} is not {:?}", found, wanted);
        assert!((found.y - wanted.y).abs() < 1e-9, "{:?} is not {:?}", found, wanted);
    }
    assert_eq!(result[0].get(0), expected[0]);
    assert_eq!(result[0].get(10), expected[10]);
}


/// Test the flattening of a mirrored cubic curve (also called "smooth
/// curve").
#[test]
fn test_smooth_curve() {
    let input = r#"
        <svg xmlns="http://www.w3.org/2000/svg" version="1.1">
            <path d="M10 80 C 40 10, 65 10, 95 80 S 150 150, 180 80"/>
        </svg>
    "#
    .trim();
    let result = convert(input, FLATTENING_TOLERANCE, true).unwrap();
    assert_eq!(result.len(), 1);
    assert_eq!(result[0].len(), 39);
    assert_eq!(
        result[0],
        Polyline::from_vec(vec![
            CoordinatePair::new(10.0, 80.0),
            CoordinatePair::new(15.78100143969477, 67.25459368406422),
            CoordinatePair::new(21.112891508939025, 56.89021833666841),
            CoordinatePair::new(26.03493691503612, 48.59336957163201),
            CoordinatePair::new(30.583422438239403, 42.07406572971166),
            CoordinatePair::new(34.79388507225312, 37.06697733757036),
            CoordinatePair::new(38.70370370370371, 33.333333333333336),
            CoordinatePair::new(42.88612651359071, 30.34239438296855),
            CoordinatePair::new(46.831649509423386, 28.490212691725404),
            CoordinatePair::new(50.627640135655845, 27.608152315837724),
            CoordinatePair::new(54.37235986434414, 27.608152315837728),
            CoordinatePair::new(58.168350490576614, 28.490212691725404),
            CoordinatePair::new(62.113873486409275, 30.342394382968557),
            CoordinatePair::new(66.2962962962963, 33.33333333333333),
            CoordinatePair::new(70.20611492774688, 37.06697733757035),
            CoordinatePair::new(74.41657756176059, 42.07406572971165),
            CoordinatePair::new(78.96506308496389, 48.593369571632),
            CoordinatePair::new(83.88710849106097, 56.89021833666841),
            CoordinatePair::new(89.21899856030524, 67.2545936840642),
            CoordinatePair::new(95.0, 80.0),
            CoordinatePair::new(100.78100143969478, 92.7454063159358),
            CoordinatePair::new(106.112891508939, 103.10978166333157),
            CoordinatePair::new(111.03493691503611, 111.40663042836799),
            CoordinatePair::new(115.58342243823941, 117.92593427028837),
            CoordinatePair::new(119.79388507225313, 122.93302266242966),
            CoordinatePair::new(123.70370370370371, 126.66666666666669),
            CoordinatePair::new(127.88612651359071, 129.65760561703146),
            CoordinatePair::new(131.83164950942339, 131.50978730827458),
            CoordinatePair::new(135.62764013565584, 132.39184768416223),
            CoordinatePair::new(139.37235986434416, 132.3918476841623),
            CoordinatePair::new(143.16835049057661, 131.50978730827458),
            CoordinatePair::new(147.1138734864093, 129.65760561703146),
            CoordinatePair::new(151.2962962962963, 126.66666666666666),
            CoordinatePair::new(155.2061149277469, 122.93302266242966),
            CoordinatePair::new(159.4165775617606, 117.92593427028835),
            CoordinatePair::new(163.9650630849639, 111.40663042836802),
            CoordinatePair::new(168.88710849106099, 103.1097816633316),
            CoordinatePair::new(174.21899856030524, 92.74540631593578),
            CoordinatePair::new(180.0, 80.0),
        ])
    );
}

#[test]
fn test_parse_transform_matrix() {
    // Identity matrix
    assert_eq!(
        transform(parse_transform("matrix(1 0 0 1 0 0)", &number).unwrap()),
        Transform2D::identity()
    );
    // Scaling matrix (expand in X, compress in Y)
    assert_eq!(
        transform(parse_transform("matrix(2 0 0 0.5 0 0)", &number).unwrap()),
        Transform2D::scale(2.0, 0.5)
    );
    // Translation matrix
    assert_eq!(
        transform(parse_transform("matrix(1 0 0 1 3 -5.0)", &number).unwrap()),
        Transform2D::translation(3.0, -5.0)
    );
}

// Given the line `1,2 2,4`, scale Y by 0.5, then translate by (2,-4).
#[test]
fn test_apply_transformation_matrix() {
    let input = r#"
        <?xml version="1.0" encoding="UTF-8" standalone="no"?>
        <svg xmlns="http://www.w3.org/2000/svg" version="1.1">
            <path d="M 1,2 2,4" transform="matrix(1 0 0 0.5 2 -4)"/>
        </svg>
    "#
    .trim();
    let result = convert(input, FLATTENING_TOLERANCE, true).unwrap();
    assert_eq!(result.len(), 1);
    assert_eq!(result[0].len(), 2);
    assert_eq!(result[0].get(0), (3., -3.).into());
    assert_eq!(result[0].get(1), (4., -2.).into());
}

// Like `test_apply_transformation_matrix`, but with discrete
// transformations, which the simplification turns into a matrix.
#[test]
fn test_apply_transformations() {
    let input = r#"
        <?xml version="1.0" encoding="UTF-8" standalone="no"?>
        <svg xmlns="http://www.w3.org/2000/svg" version="1.1">
            <path d="M 1,2 2,4" transform="translate(2 -4) scale(1 0.5)"/>
        </svg>
    "#
    .trim();
    let result = convert(input, FLATTENING_TOLERANCE, true).unwrap();
    assert_eq!(result.len(), 1);
    assert_eq!(result[0].len(), 2);
    assert_eq!(result[0].get(0), (3., -3.).into());
    assert_eq!(result[0].get(1), (4., -2.).into());
}

#[test]
fn transform_is_applied_without_simplifying() {
    let input = r#"<svg><path d="M 1,2 2,4" transform=" matrix(1 0 0 0.5 2 -4) "/><path d="M 0,0 1,1"/></svg>"#;
    let result = convert(input, FLATTENING_TOLERANCE, false).unwrap();
    assert_eq!(result.len(), 2);
    assert_eq!(result[0].as_ref(), &vec![pair(3., -3.), pair(4., -2.)]);
    assert_eq!(result[1].as_ref(), &vec![pair(0., 0.), pair(1., 1.)]);
    let mut p = pair(1., 2.);
    let m = Matrix { a: 1., b: 0., c: 0., d: 0.5, e: 2., f: -4. };
    p.transform(&m, &apply);
    assert_eq!(p, pair(3., -3.));
    let line = Polyline::from_vec(vec![pair(1., 2.), pair(2., 4.)]).transform(&m, &apply);
    assert_eq!(line.unwrap(), vec![pair(3., -3.), pair(4., -2.)]);
}

#[test]
fn unsupported_transforms_fail_the_document() {
    let input = r#"<svg><path d="M 0,0 1,1"/><path d="M 1,2 2,4" transform="translate(2 -4)"/></svg>"#;
    let error = convert(input, FLATTENING_TOLERANCE, false).unwrap_err();
    assert!(matches!(error, Error::Transform(_)));
    let error = parse_transform("matrix(1 0 0 1 0)", &number).unwrap_err();
    assert_eq!(
        error.message(),
        "Transform error: Invalid number of matrix elements in transform 'matrix(1 0 0 1 0)'"
    );
    let error = parse_transform("matrix(1 0 0 1 0 x 7)", &number).unwrap_err();
    assert_eq!(
        error.message(),
        "Transform error: Invalid matrix elements in transform 'matrix(1 0 0 1 0 x 7)'"
    );
}

#[test]
fn simplification_failure_is_reported() {
    let error = convert("<svg", FLATTENING_TOLERANCE, true).unwrap_err();
    assert!(matches!(error, Error::Usvg(_)));
    assert!(error.message().starts_with("Could not simplify SVG with usvg: "));
    let error = convert("<svg></baa>", FLATTENING_TOLERANCE, false).unwrap_err();
    assert!(matches!(error, Error::SvgParse(_)));
}

#[test]
fn smooth_quadratic_anywhere_is_a_path_error() {
    for expr in ["M 1,2 L 3,4 T 5,6", "M 1,2 T 5,6 L 3,4 M 7,8 9,9", "T 5,6"] {
        let error = path(expr).unwrap_err();
        assert!(matches!(error, Error::PathParse(_)));
    }
    let input = r#"<svg><path d="M 0,0 1,1"/><path d="M 1,2 L 3,4 T 5,6"/></svg>"#;
    assert!(matches!(convert(input, FLATTENING_TOLERANCE, false), Err(Error::PathParse(_))));
}

#[test]
fn malformed_path_data_is_a_path_error() {
    let error = path("M 1,2 L 3,4 L x").unwrap_err();
    assert!(matches!(error, Error::PathParse(_)));
    // A command that fails before the fault is reported first.
    let error = path("M 1,2 Z L x").unwrap_err();
    assert_eq!(
        error.message(),
        "SVG path parse error: Invalid state: Polyline error: Lines with less than 2 coordinate pairs cannot be closed."
    );
    // Path data must start with a moveto.
    assert!(matches!(path("H 1"), Err(Error::PathParse(_))));
}

#[test]
fn moveto_boundary_with_mixed_flags() {
    let expected = vec![vec![pair(1., 2.), pair(4., 6.)], vec![pair(10., 10.), pair(11., 9.)]];
    for expr in [
        "M 1,2 L 4,6 M 10,10 L 11,9",
        "m 1,2 l 3,4 m 6,4 l 1,-1",
        "M 1,2 l 3,4 M 10,10 l 1,-1",
        "m 1,2 L 4,6 m 6,4 L 11,9",
    ] {
        let lines: Vec<_> = path(expr).unwrap().into_iter().map(Polyline::unwrap).collect();
        assert_eq!(lines, expected);
    }
}

#[test]
fn arc_with_identical_end_points_adds_nothing() {
    let lines = path("M 1,2 L 3,4 A 5 5 0 0 1 3,4").unwrap();
    assert_eq!(lines[0].as_ref(), &vec![pair(1., 2.), pair(3., 4.)]);
    let lines = path("M 1,2 L 3,4 a 5 5 0 0 1 0,0").unwrap();
    assert_eq!(lines[0].as_ref(), &vec![pair(1., 2.), pair(3., 4.)]);
    assert_eq!(arc(command(pair(3., 4.), pair(3., 4.), 5., 5., true)), ArcShape::Nothing);
}

#[test]
fn arc_with_a_zero_radius_is_a_line() {
    let lines = path("M 1,2 A 0 5 0 0 1 3,4").unwrap();
    assert_eq!(lines[0].as_ref(), &vec![pair(1., 2.), pair(3., 4.)]);
    let lines = path("M 1,2 a 5 0 30 1 0 2,2").unwrap();
    assert_eq!(lines[0].as_ref(), &vec![pair(1., 2.), pair(3., 4.)]);
    assert_eq!(arc(command(pair(1., 2.), pair(3., 4.), 0., 5., true)), ArcShape::Line);
}

#[test]
fn arc_ends_exactly_at_its_end_point() {
    let lines = path("M 10,10 A 5 5 0 0 1 20,10").unwrap();
    let line = lines[0].as_ref();
    assert!(line.len() > 3);
    assert_eq!(line[0], pair(10., 10.));
    assert_eq!(line[line.len() - 1], pair(20., 10.));
    // A half circle of radius 5 about (15, 10), drawn with increasing angle.
    for p in line {
        let r = ((p.x - 15.).powi(2) + (p.y - 10.).powi(2)).sqrt();
        assert!((r - 5.).abs() < FLATTENING_TOLERANCE);
        assert!(p.y <= 10. + 1e-9);
    }
    match arc(command(pair(10., 10.), pair(20., 10.), 5., 5., false)) {
        ArcShape::Curves { curves } => {
            assert_eq!(curves.len(), 2);
            assert!((curves[1].to.x - 20.).abs() < 1e-4 && (curves[1].to.y - 10.).abs() < 1e-4);
        }
        other => panic!("unexpected {:?}", other),
    }
    // A full turn is split into four curves at most.
    match arc(command(pair(10., 10.), pair(10., 10.000001), 5., 5., true)) {
        ArcShape::Curves { curves } => assert_eq!(curves.len(), 4),
        other => panic!("unexpected {:?}", other),
    }
}

#[test]
fn finer_tolerance_never_gives_fewer_points() {
    let cubic = Stroke::Cubic {
        from: pair(10., 80.),
        ctrl1: pair(40., 10.),
        ctrl2: pair(65., 10.),
        to: pair(95., 80.),
    };
    let quadratic = Stroke::Quadratic { from: pair(10., 80.), ctrl: pair(40., 10.), to: pair(95., 80.) };
    let tolerances = [10.0, 5.0, 1.0, 0.5, 0.15, 0.05, 0.01];
    for stroke in [cubic, quadratic] {
        let counts: Vec<usize> = tolerances.iter().map(|tol| eval(stroke, *tol).len()).collect();
        for pair in counts.windows(2) {
            assert!(pair[0] <= pair[1]);
        }
        assert!(counts[0] < counts[counts.len() - 1]);
    }
}

#[test]
fn smooth_curve_without_a_curve_before_starts_at_the_current_point() {
    let lines = path("M 10,20 S 2,7 10,30").unwrap();
    let same = path("M 10,20 C 10,20 2,7 10,30").unwrap();
    assert_eq!(lines, same);
    let lines = path("M 10,20 s -8,-13 0,10").unwrap();
    assert_eq!(lines, same);
}

#[test]
fn relative_offsets_are_exact_sums() {
    assert_eq!(svg2polylines::offset(pair(1.5, 2.), pair(0.25, -4.), &plus), pair(1.75, -2.));
    assert_eq!(svg2polylines::apart(pair(1.5, 2.), pair(0.25, -4.), &minus), pair(1.25, 6.));
    assert_eq!(svg2polylines::resolve(true, pair(1.5, 2.), pair(0.25, -4.), &plus), pair(0.25, -4.));
    assert_eq!(svg2polylines::resolve(false, pair(1.5, 2.), pair(0.25, -4.), &plus), pair(1.75, -2.));
    let lines = path("M 1,1 h 2 v 3 H 0 V 0").unwrap();
    assert_eq!(
        lines[0].as_ref(),
        &vec![pair(1., 1.), pair(3., 1.), pair(3., 4.), pair(0., 4.), pair(0., 0.)]
    );
}

#[test]
fn arc_ignores_the_sign_of_its_radii() {
    assert_eq!(path("M 10,10 A -5 -5 0 0 1 20,10").unwrap(), path("M 10,10 A 5 5 0 0 1 20,10").unwrap());
    assert_eq!(path("M 10,10 A 5 -3 20 1 0 20,14").unwrap(), path("M 10,10 A 5 3 20 1 0 20,14").unwrap());
}

#[test]
fn arc_with_radii_too_small_is_scaled_up() {
    // Radius 1 cannot span a chord of 10: the arc becomes a half circle
    // about the middle of the chord.
    let lines = path("M 0,0 A 1 1 0 0 1 10,0").unwrap();
    let line = lines[0].as_ref();
    assert_eq!(line[line.len() - 1], pair(10., 0.));
    for p in line {
        let r = ((p.x - 5.).powi(2) + p.y.powi(2)).sqrt();
        assert!((r - 5.).abs() < FLATTENING_TOLERANCE + 0.001, "{:?}", p);
    }
    // The same arc in a rotated frame still ends at its end point.
    let lines = path("M 0,0 a 1 2 45 1 1 10,5").unwrap();
    let line = lines[0].as_ref();
    assert_eq!(line[line.len() - 1], pair(10., 5.));
}

#[test]
fn relative_and_absolute_arcs_agree() {
    assert_eq!(
        path("M 10,10 L 12,11 a 5 3 20 0 1 8,3").unwrap(),
        path("M 10,10 L 12,11 A 5 3 20 0 1 20,14").unwrap()
    );
}
