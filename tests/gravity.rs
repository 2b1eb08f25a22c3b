use gravity_sim::{
    grav_constant, next_k, order4_coeff, order5_coeff, rkf_next_state, slope, smoothing_factor,
    stage_coeff, update_forces, DiffEq, GravityObject, GravityObjectVector, GravitySim, HasNorm,
    RKFOptions, RKFState, ScalarLike, Vector3, VectorLike,
};

const G: f64 = 6.6743e-11;

#[derive(Clone, Copy, Debug)]
struct Real(f64);

impl ScalarLike for Real {
    fn sum(self, rhs: Self) -> Self {
        Real(self.0 + rhs.0)
    }
    fn difference(self, rhs: Self) -> Self {
        Real(self.0 - rhs.0)
    }
    fn product(self, rhs: Self) -> Self {
        Real(self.0 * rhs.0)
    }
    fn quotient(self, rhs: Self) -> Self {
        Real(self.0 / rhs.0)
    }
    fn negated(self) -> Self {
        Real(-self.0)
    }
    fn magnitude(self) -> Self {
        Real(self.0.abs())
    }
    fn square_root(self) -> Self {
        Real(self.0.sqrt())
    }
    fn power(self, exponent: Self) -> Self {
        Real(self.0.powf(exponent.0))
    }
    fn below(self, rhs: Self) -> bool {
        self.0 < rhs.0
    }
    fn same_as(self, rhs: Self) -> bool {
        self.0 == rhs.0
    }
    fn ratio_value(num: i64, den: i64) -> Self {
        Real(num as f64 / den as f64)
    }
    fn add(self, rhs: Self) -> Self {
        self.sum(rhs)
    }
    fn sub(self, rhs: Self) -> Self {
        self.difference(rhs)
    }
    fn mul(self, rhs: Self) -> Self {
        self.product(rhs)
    }
    fn div(self, rhs: Self) -> Self {
        self.quotient(rhs)
    }
    fn neg(self) -> Self {
        self.negated()
    }
    fn abs(self) -> Self {
        self.magnitude()
    }
    fn sqrt(self) -> Self {
        self.square_root()
    }
    fn powf(self, exponent: Self) -> Self {
        self.power(exponent)
    }
    fn less_than(self, rhs: Self) -> bool {
        self.below(rhs)
    }
    fn equals(self, rhs: Self) -> bool {
        self.same_as(rhs)
    }
    fn ratio(num: i64, den: i64) -> Self {
        Self::ratio_value(num, den)
    }
}

fn v(x: f64, y: f64, z: f64) -> Vector3<Real> {
    Vector3::new(Real(x), Real(y), Real(z))
}

fn xyz(a: &Vector3<Real>) -> (f64, f64, f64) {
    (a.x.0, a.y.0, a.z.0)
}

fn body(id: u32, p: (f64, f64, f64), vel: (f64, f64, f64), mass: f64) -> GravityObject<Real> {
    GravityObject::new(id, v(p.0, p.1, p.2), v(vel.0, vel.1, vel.2), Real(mass))
}

fn options(tolerance: f64, max_steps: usize) -> RKFOptions<Real> {
    RKFOptions::new(Real(tolerance), max_steps, Real(1.0))
}

const EARTH_MASS: f64 = 5.972e24;
const ORBIT_RADIUS: f64 = 1.0e7;

/// A heavy body at rest at the origin and a unit mass on a circular orbit.
fn orbit_system() -> Vec<GravityObject<Real>> {
    let speed = (G * EARTH_MASS / ORBIT_RADIUS).sqrt();
    vec![
        body(1, (0.0, 0.0, 0.0), (0.0, 0.0, 0.0), EARTH_MASS),
        body(2, (ORBIT_RADIUS, 0.0, 0.0), (0.0, speed, 0.0), 1.0),
    ]
}

fn orbit_period() -> f64 {
    2.0 * std::f64::consts::PI * (ORBIT_RADIUS.powi(3) / (G * EARTH_MASS)).sqrt()
}

fn sim_with(objects: Vec<GravityObject<Real>>) -> GravitySim<Real> {
    let mut sim = GravitySim::new();
    sim.set_objects(objects);
    sim
}

fn distance(a: &Vector3<Real>, b: &Vector3<Real>) -> f64 {
    a.distance_to(b).0
}

fn momentum(objects: &[GravityObject<Real>]) -> (f64, f64, f64) {
    let mut p = (0.0, 0.0, 0.0);
    for o in objects {
        p.0 += o.mass.0 * o.velocity.x.0;
        p.1 += o.mass.0 * o.velocity.y.0;
        p.2 += o.mass.0 * o.velocity.z.0;
    }
    p
}

// ---- vectors ----

#[test]
fn vector_arithmetic() {
    let a = v(1.0, 2.0, 3.0);
    let b = v(4.0, -5.0, 6.5);
    assert_eq!(xyz(&a.add(&b)), (5.0, -3.0, 9.5));
    assert_eq!(xyz(&a.sub(&b)), (-3.0, 7.0, -3.5));
    assert_eq!(xyz(&a.scale(Real(2.0))), (2.0, 4.0, 6.0));
    assert_eq!(xyz(&a.divide(Real(2.0))), (0.5, 1.0, 1.5));
    assert_eq!(xyz(&a.neg()), (-1.0, -2.0, -3.0));
    assert_eq!(a.dot(&b).0, 4.0 - 10.0 + 19.5);
    assert_eq!(xyz(&v(1.0, 0.0, 0.0).cross(&v(0.0, 1.0, 0.0))), (0.0, 0.0, 1.0));
    assert_eq!(xyz(&a.cross(&b)), (2.0 * 6.5 - 3.0 * -5.0, 3.0 * 4.0 - 1.0 * 6.5, 1.0 * -5.0 - 2.0 * 4.0));
    assert_eq!(xyz(&Vector3::<Real>::zero()), (0.0, 0.0, 0.0));
}

#[test]
fn vector_assign_forms() {
    let mut a = v(1.0, 2.0, 3.0);
    a.add_assign(&v(1.0, 1.0, 1.0));
    assert_eq!(xyz(&a), (2.0, 3.0, 4.0));
    a.sub_assign(&v(2.0, 2.0, 2.0));
    assert_eq!(xyz(&a), (0.0, 1.0, 2.0));
    a.mul_assign(Real(3.0));
    assert_eq!(xyz(&a), (0.0, 3.0, 6.0));
    a.div_assign(Real(3.0));
    assert_eq!(xyz(&a), (0.0, 1.0, 2.0));
    a.add_scaled(&v(2.0, 4.0, 8.0), Real(0.5));
    assert_eq!(xyz(&a), (1.0, 3.0, 6.0));
    a.set_zero();
    assert_eq!(xyz(&a), (0.0, 0.0, 0.0));
}

#[test]
fn vector_norms() {
    let a = v(3.0, 4.0, 12.0);
    assert_eq!(a.norm().0, 13.0);
    assert_eq!(a.length().0, 13.0);
    assert_eq!(a.norm_squared().0, 169.0);
    assert_eq!(a.length2().0, 169.0);
    assert_eq!(v(1.0, 1.0, 1.0).distance_to(&v(4.0, 5.0, 1.0)).0, 5.0);
}

#[test]
fn vector_normalize_and_zero() {
    let mut a = v(0.0, 3.0, 4.0);
    a.normalize();
    assert_eq!(xyz(&a), (0.0, 0.6, 0.8));
    let mut z = v(0.0, 0.0, 0.0);
    z.normalize();
    assert_eq!(xyz(&z), (0.0, 0.0, 0.0));
    assert!(z.is_zero());
    assert!(!v(0.0, 0.0, 1e-300).is_zero());
}

#[test]
fn vector_projection() {
    let a = v(2.0, 3.0, 0.0);
    assert_eq!(xyz(&a.project_onto(&v(4.0, 0.0, 0.0))), (2.0, 0.0, 0.0));
    assert_eq!(xyz(&a.project_onto(&v(0.0, 0.0, 0.0))), (0.0, 0.0, 0.0));
}

#[test]
fn vector_basis_drops_dependent_vectors() {
    let basis = Vector3::orthonormal_basis(vec![
        v(1.0, 0.0, 0.0),
        v(2.0, 0.0, 0.0),
        v(1.0, 1.0, 0.0),
        v(0.0, 0.0, 0.0),
    ]);
    assert_eq!(basis.len(), 2);
    assert_eq!(xyz(&basis[0]), (1.0, 0.0, 0.0));
    assert_eq!(xyz(&basis[1]), (0.0, 1.0, 0.0));
}

// ---- state vectors ----

#[test]
fn object_new_has_zero_force() {
    let o = body(3, (1.0, 2.0, 3.0), (4.0, 5.0, 6.0), 7.0);
    assert_eq!(o.id, 3);
    assert_eq!(xyz(&o.position), (1.0, 2.0, 3.0));
    assert_eq!(xyz(&o.velocity), (4.0, 5.0, 6.0));
    assert_eq!(o.mass.0, 7.0);
    assert_eq!(xyz(&o.force), (0.0, 0.0, 0.0));
}

#[test]
fn object_vector_norm_sums_positions_and_velocities() {
    let s = GravityObjectVector::from_vec(vec![
        body(1, (1.0, 2.0, 2.0), (0.0, 0.0, 0.0), 1.0),
        body(2, (0.0, 0.0, 0.0), (0.0, 4.0, 0.0), 1.0),
        body(3, (2.0, 0.0, 0.0), (0.0, 0.0, 2.0), 1.0),
    ]);
    assert_eq!(s.len(), 3);
    assert_eq!(s.norm_squared().0, 9.0 + 16.0 + 8.0);
    assert_eq!(s.norm().0, 33.0f64.sqrt());
    assert_eq!(GravityObjectVector::<Real>::new().norm().0, 0.0);
}

#[test]
fn object_vector_add_scaled_keeps_other_fields() {
    let mut o = body(7, (1.0, 0.0, 0.0), (0.0, 2.0, 0.0), 5.0);
    o.force = v(9.0, 9.0, 9.0);
    let mut a = GravityObjectVector::from_vec(vec![o]);
    let b = GravityObjectVector::from_vec(vec![body(8, (2.0, 2.0, 2.0), (4.0, 4.0, 4.0), 1.0)]);
    a.add_scaled(&b, Real(0.5));
    assert_eq!(xyz(&a.objects[0].position), (2.0, 1.0, 1.0));
    assert_eq!(xyz(&a.objects[0].velocity), (2.0, 4.0, 2.0));
    assert_eq!(a.objects[0].mass.0, 5.0);
    assert_eq!(a.objects[0].id, 7);
    assert_eq!(xyz(&a.objects[0].force), (9.0, 9.0, 9.0));
}

#[test]
fn object_vector_clone_into_and_set_zero() {
    let src = GravityObjectVector::from_vec(vec![body(1, (1.0, 2.0, 3.0), (4.0, 5.0, 6.0), 1.0)]);
    let mut dst = GravityObjectVector::from_vec(vec![body(9, (0.0, 0.0, 0.0), (0.0, 0.0, 0.0), 42.0)]);
    src.clone_into(&mut dst);
    assert_eq!(dst.objects[0].id, 9);
    assert_eq!(dst.objects[0].mass.0, 42.0);
    assert_eq!(xyz(&dst.objects[0].position), (1.0, 2.0, 3.0));
    assert_eq!(xyz(&dst.objects[0].velocity), (4.0, 5.0, 6.0));
    dst.set_zero();
    assert_eq!(xyz(&dst.objects[0].position), (0.0, 0.0, 0.0));
    assert_eq!(xyz(&dst.objects[0].velocity), (0.0, 0.0, 0.0));
    assert_eq!(dst.objects[0].mass.0, 42.0);
    let copy = src.duplicate();
    assert_eq!(xyz(&copy.objects[0].position), (1.0, 2.0, 3.0));
    assert_eq!(copy.objects[0].id, 1);
}

#[test]
fn object_vector_operators() {
    let mut a = GravityObjectVector::from_vec(vec![body(1, (1.0, 2.0, 3.0), (4.0, 5.0, 6.0), 2.0)]);
    let b = GravityObjectVector::from_vec(vec![body(2, (1.0, 1.0, 1.0), (2.0, 2.0, 2.0), 9.0)]);
    a.add_assign(&b);
    assert_eq!(xyz(&a.objects[0].position), (2.0, 3.0, 4.0));
    assert_eq!(xyz(&a.objects[0].velocity), (6.0, 7.0, 8.0));
    a.sub_assign(&b);
    assert_eq!(xyz(&a.objects[0].position), (1.0, 2.0, 3.0));
    assert_eq!(xyz(&a.objects[0].velocity), (4.0, 5.0, 6.0));
    a.mul_assign(Real(2.0));
    assert_eq!(xyz(&a.objects[0].position), (2.0, 4.0, 6.0));
    a.div_assign(Real(4.0));
    assert_eq!(xyz(&a.objects[0].velocity), (2.0, 2.5, 3.0));
    assert_eq!(a.objects[0].mass.0, 2.0);
    assert_eq!(a.objects[0].id, 1);
}

// ---- forces and slope ----

#[test]
fn constants_values() {
    assert_eq!(grav_constant::<Real>().0, 6.6743e-11);
    assert_eq!(smoothing_factor::<Real>().0, 1e-5);
}

#[test]
fn forces_of_two_bodies_are_opposite() {
    let mut s = GravityObjectVector::from_vec(vec![
        body(1, (0.0, 0.0, 0.0), (0.0, 0.0, 0.0), 1e10),
        body(2, (10.0, 0.0, 0.0), (0.0, 0.0, 0.0), 2e10),
    ]);
    update_forces(&mut s);
    let expected = 10.0 * (G * 1e10 * 2e10 / (10.0 * 10.0 * 10.0));
    assert_eq!(xyz(&s.objects[0].force), (expected, 0.0, 0.0));
    assert_eq!(s.objects[1].force.x.0, -10.0 * (G * 2e10 * 1e10 / 1000.0));
    assert!((s.objects[0].force.x.0 + s.objects[1].force.x.0).abs() <= 1e-9 * expected);
    assert_eq!(xyz(&s.objects[0].position), (0.0, 0.0, 0.0));
}

#[test]
fn forces_of_three_bodies_sum() {
    let mut s = GravityObjectVector::from_vec(vec![
        body(1, (0.0, 0.0, 0.0), (0.0, 0.0, 0.0), 1e10),
        body(2, (1.0, 0.0, 0.0), (0.0, 0.0, 0.0), 1e10),
        body(3, (-2.0, 0.0, 0.0), (0.0, 0.0, 0.0), 1e10),
    ]);
    update_forces(&mut s);
    let from2 = 1.0 * (G * 1e10 * 1e10 / 1.0);
    let from3 = -2.0 * (G * 1e10 * 1e10 / 8.0);
    assert_eq!(s.objects[0].force.x.0, 0.0 + from2 + from3);
}

#[test]
fn coincident_bodies_give_nan_force() {
    let mut s = GravityObjectVector::from_vec(vec![
        body(1, (1.0, 1.0, 1.0), (0.0, 0.0, 0.0), 1.0),
        body(2, (1.0, 1.0, 1.0), (0.0, 0.0, 0.0), 1.0),
    ]);
    update_forces(&mut s);
    assert!(s.objects[0].force.x.0.is_nan());
}

#[test]
fn slope_forward_and_backward() {
    let objs = vec![
        body(1, (0.0, 0.0, 0.0), (1.0, 2.0, 3.0), 1e10),
        body(2, (10.0, 0.0, 0.0), (0.0, 0.0, 0.0), 0.0),
    ];
    let mut fwd = GravityObjectVector::from_vec(objs.clone());
    slope(&mut fwd, false, Real(2.0));
    assert_eq!(xyz(&fwd.objects[0].position), (2.0, 4.0, 6.0));
    let f0 = 10.0 * (G * 1e10 * 0.0 / 1000.0);
    assert_eq!(fwd.objects[0].velocity.x.0, f0 * 2.0 / (1e10 + 1e-5));
    // A body of mass zero feels no force, and the softening keeps the
    // division finite.
    assert_eq!(xyz(&fwd.objects[1].velocity), (0.0, 0.0, 0.0));
    let mut back = GravityObjectVector::from_vec(objs);
    let eq = DiffEq::new(true);
    assert!(eq.backward);
    eq.slope(&mut back, Real(2.0));
    assert_eq!(xyz(&back.objects[0].position), (-2.0, -4.0, -6.0));
}

// ---- integrator ----

#[test]
fn tableau_coefficients() {
    assert_eq!(stage_coeff::<Real>(1, 0).0, 2.0 / 9.0);
    assert_eq!(stage_coeff::<Real>(3, 1).0, -243.0 / 128.0);
    assert_eq!(stage_coeff::<Real>(4, 2).0, -27.0 / 5.0);
    assert_eq!(stage_coeff::<Real>(5, 4).0, 5.0 / 144.0);
    assert_eq!(order4_coeff::<Real>(1).0, 0.0);
    assert_eq!(order4_coeff::<Real>(3).0, 16.0 / 45.0);
    assert_eq!(order5_coeff::<Real>(5).0, 6.0 / 25.0);
    let c4: f64 = (0..6).map(|i| order4_coeff::<Real>(i).0).sum();
    let c5: f64 = (0..6).map(|i| order5_coeff::<Real>(i).0).sum();
    assert!((c4 - 1.0).abs() < 1e-15);
    assert!((c5 - 1.0).abs() < 1e-15);
}

#[test]
fn first_stage_is_slope_times_step() {
    let state = GravityObjectVector::from_vec(vec![body(1, (5.0, 0.0, 0.0), (1.0, 2.0, 3.0), 1.0)]);
    let mut k = Vec::new();
    next_k(&mut k, &state, Real(0.5), 0, &DiffEq::new(false));
    assert_eq!(k.len(), 1);
    assert_eq!(xyz(&k[0].objects[0].position), (0.5, 1.0, 1.5));
    assert_eq!(xyz(&k[0].objects[0].velocity), (0.0, 0.0, 0.0));
    next_k(&mut k, &state, Real(0.5), 1, &DiffEq::new(false));
    assert_eq!(k.len(), 2);
    assert_eq!(xyz(&k[1].objects[0].position), (0.5, 1.0, 1.5));
}

#[test]
fn free_body_moves_in_a_straight_line() {
    let state = GravityObjectVector::from_vec(vec![body(1, (0.0, 0.0, 0.0), (1.0, -2.0, 0.5), 3.0)]);
    let mut rkf = RKFState::new(DiffEq::new(false), state, options(1e-9, 100));
    let advanced = rkf.evolve(Real(4.0));
    assert_eq!(advanced.0, 4.0);
    let p = xyz(&rkf.state.objects[0].position);
    assert!((p.0 - 4.0).abs() < 1e-12 && (p.1 + 8.0).abs() < 1e-12 && (p.2 - 2.0).abs() < 1e-12);
}

#[test]
fn evolve_zero_time_changes_nothing() {
    let (advanced, state) =
        rkf_next_state(GravityObjectVector::from_vec(orbit_system()), Real(0.0), options(1e-6, 10));
    assert_eq!(advanced.0, 0.0);
    assert_eq!(xyz(&state.objects[1].position), (ORBIT_RADIUS, 0.0, 0.0));
}

#[test]
fn backward_evolution_returns_negative_time() {
    let (advanced, _) =
        rkf_next_state(GravityObjectVector::from_vec(orbit_system()), Real(-100.0), options(1e-6, 100_000));
    assert_eq!(advanced.0, -100.0);
}

#[test]
fn options_new_keeps_fields() {
    let o = options(1e-3, 17);
    assert_eq!(o.tolerance.0, 1e-3);
    assert_eq!(o.max_steps, 17);
    assert_eq!(o.max_compute_time.0, 1.0);
}

// ---- simulation ----

#[test]
fn sim_new_is_empty() {
    let sim = GravitySim::<Real>::new();
    assert_eq!(sim.objects().len(), 0);
    assert_eq!(sim.time.0, 0.0);
}

#[test]
fn sim_set_and_get_objects() {
    let sim = sim_with(orbit_system());
    let objects = sim.objects();
    assert_eq!(objects.len(), 2);
    assert_eq!(objects[1].id, 2);
    assert_eq!(sim.time.0, 0.0);
}

#[test]
fn sim_evolve_advances_clock() {
    let mut sim = sim_with(orbit_system());
    let advanced = sim.evolve(Real(50.0), options(1e-6, 100_000));
    assert_eq!(advanced.0, 50.0);
    assert_eq!(sim.time.0, 50.0);
    let back = sim.evolve(Real(-20.0), options(1e-6, 100_000));
    assert_eq!(back.0, -20.0);
    assert_eq!(sim.time.0, 30.0);
}

#[test]
fn sim_evolve_keeps_ids_and_masses() {
    let mut sim = sim_with(orbit_system());
    sim.evolve(Real(500.0), options(1e-6, 100_000));
    let objects = sim.objects();
    assert_eq!(objects[0].id, 1);
    assert_eq!(objects[1].id, 2);
    assert_eq!(objects[0].mass.0, EARTH_MASS);
    assert_eq!(objects[1].mass.0, 1.0);
}

#[test]
fn sim_without_bodies_advances_full_time() {
    let mut sim = GravitySim::<Real>::new();
    assert_eq!(sim.evolve(Real(12.5), options(1e-6, 3)).0, 12.5);
}

// ---- properties ----

#[test]
fn momentum_is_conserved() {
    let objs = vec![
        body(1, (0.0, 0.0, 0.0), (0.0, 10.0, 0.0), 1e24),
        body(2, (1e7, 0.0, 0.0), (0.0, -3000.0, 100.0), 5e22),
        body(3, (0.0, 2e7, 5e6), (1500.0, 0.0, 0.0), 3e22),
    ];
    let before = momentum(&objs);
    let mut sim = sim_with(objs);
    let advanced = sim.evolve(Real(3600.0), options(1e-3, 1_000_000));
    assert_eq!(advanced.0, 3600.0);
    let after = momentum(&sim.objects());
    let scale = 1e24 * 10.0 + 5e22 * 3000.0 + 3e22 * 1500.0;
    assert!((after.0 - before.0).abs() <= 1e-9 * scale);
    assert!((after.1 - before.1).abs() <= 1e-9 * scale);
    assert!((after.2 - before.2).abs() <= 1e-9 * scale);
}

#[test]
fn advanced_time_never_exceeds_request() {
    for (t, steps) in [(1000.0, 3usize), (1000.0, 100_000), (-1000.0, 3), (-1000.0, 100_000)] {
        let mut sim = sim_with(orbit_system());
        let advanced = sim.evolve(Real(t), options(1e-6, steps)).0;
        assert!(advanced.abs() <= t.abs());
        assert!(advanced * t >= 0.0);
        if steps == 100_000 {
            assert_eq!(advanced, t);
        }
    }
}

#[test]
fn evolution_is_deterministic() {
    let mut a = sim_with(orbit_system());
    let mut b = sim_with(orbit_system());
    let ra = a.evolve(Real(2500.0), options(1e-4, 10_000));
    let rb = b.evolve(Real(2500.0), options(1e-4, 10_000));
    assert_eq!(ra.0.to_bits(), rb.0.to_bits());
    for (x, y) in a.objects().iter().zip(b.objects().iter()) {
        assert_eq!(x.position.x.0.to_bits(), y.position.x.0.to_bits());
        assert_eq!(x.position.y.0.to_bits(), y.position.y.0.to_bits());
        assert_eq!(x.velocity.x.0.to_bits(), y.velocity.x.0.to_bits());
        assert_eq!(x.velocity.y.0.to_bits(), y.velocity.y.0.to_bits());
    }
}

#[test]
fn forward_then_backward_returns_to_start() {
    let start = orbit_system();
    let mut sim = sim_with(start.clone());
    assert_eq!(sim.evolve(Real(1000.0), options(1e-6, 100_000)).0, 1000.0);
    assert_eq!(sim.evolve(Real(-1000.0), options(1e-6, 100_000)).0, -1000.0);
    let end = sim.objects();
    assert!(distance(&end[1].position, &start[1].position) < 1.0);
    assert!(distance(&end[1].velocity, &start[1].velocity) < 1e-3);
}

#[test]
fn closed_orbit_returns_to_start() {
    let start = orbit_system();
    let mut sim = sim_with(start.clone());
    let period = orbit_period();
    let advanced = sim.evolve(Real(period), options(1e-6, 1_000_000));
    assert_eq!(advanced.0, period);
    let end = sim.objects();
    assert!(distance(&end[1].position, &start[1].position) < 1e-3 * ORBIT_RADIUS);
}

#[test]
fn smaller_tolerance_is_not_less_accurate() {
    let half = orbit_period() / 2.0;
    let run = |tolerance: f64| {
        let mut sim = sim_with(orbit_system());
        assert_eq!(sim.evolve(Real(half), options(tolerance, 1_000_000)).0, half);
        sim.objects()[1].position
    };
    let reference = run(1e-9);
    let coarse = distance(&run(1e2), &reference);
    let fine = distance(&run(1e1), &reference);
    let finer = distance(&run(1e0), &reference);
    assert!(fine <= coarse);
    assert!(finer <= fine);
}

#[test]
fn single_step_budget_stops_early() {
    let start = orbit_system();
    let mut sim = sim_with(start.clone());
    let advanced = sim.evolve(Real(1000.0), options(1e-12, 1));
    assert!(advanced.0 < 1000.0);
    assert_eq!(advanced.0, 0.0);
    let end = sim.objects();
    assert_eq!(xyz(&end[1].position), xyz(&start[1].position));
}
