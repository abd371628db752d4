//! The headline scenario: a car with identity rotation driving forward for
//! one second at 60 Hz. The forward speed climbs strictly, never exceeds the
//! top speed, each per-tick change respects the acceleration clamp, and the
//! whole run matches, bit for bit, the same controller arithmetic done
//! directly in `f32`.

use simcore::engine::Engine;
use simcore::input::KEY_W;
use simcore::math::Vec3;

fn v(x: f32, y: f32, z: f32) -> Vec3 {
    Vec3 { x: x.to_bits(), y: y.to_bits(), z: z.to_bits() }
}

fn f(v: &Vec3) -> nalgebra_glm::Vec3 {
    nalgebra_glm::vec3(f32::from_bits(v.x), f32::from_bits(v.y), f32::from_bits(v.z))
}

const DT: f32 = 1.0 / 60.0;

/// One controller step done directly in floats, for an identity rotation and
/// full forward input: the mirror of the verified arithmetic.
fn mirror_step(vel: &mut nalgebra_glm::Vec3, pos: &mut nalgebra_glm::Vec3) {
    let rot: nalgebra_glm::Mat4 = nalgebra_glm::identity();
    let forward = -rot.column(2).xyz();
    let desired = forward * 20.0f32 * 1.0f32;
    let current = vel.dot(&forward);
    let delta_speed = desired.dot(&forward) - current;
    let change = delta_speed.clamp(-20.0 * DT, 20.0 * DT);
    *vel += forward * change;
    let lateral = *vel - forward * vel.dot(&forward);
    *vel -= lateral * 0.1;
    *pos += *vel * DT;
}

#[test]
fn forward_drive_for_one_second() {
    let mut engine = Engine::new();
    engine.spawn_car(0, v(0.0, 0.0, -3.0));
    let e = engine.car_entity.unwrap();

    // The scenario asks for an identity-like rotation.
    let mut t = engine.world.transform(e).unwrap();
    t.zero_rotation();
    assert!(engine.world.set_transform(e, t));

    engine.input_manager.press_key(KEY_W);

    let mut mirror_vel = nalgebra_glm::vec3(0.0f32, 0.0, 0.0);
    let mut mirror_pos = nalgebra_glm::vec3(0.0f32, 0.0, -3.0);
    let forward = nalgebra_glm::vec3(0.0f32, 0.0, -1.0);

    let mut prev_speed = 0.0f32;
    for _ in 0..60 {
        engine.tick(DT.to_bits());
        mirror_step(&mut mirror_vel, &mut mirror_pos);

        let car = engine.world.car(e).unwrap();
        let tr = engine.world.transform(e).unwrap();

        // Bit-exact agreement with the direct float computation.
        assert_eq!(f(&car.velocity), mirror_vel);
        assert_eq!(f(&tr.position), mirror_pos);

        let speed = f(&car.velocity).dot(&forward);
        // Strictly increasing, clamped per tick, never over the top speed.
        assert!(speed > prev_speed, "speed must climb every tick");
        assert!(speed - prev_speed <= 20.0 * DT + 1e-4, "per-tick change within the clamp");
        assert!(speed <= 20.0, "top speed is never exceeded");
        prev_speed = speed;
    }

    // The speed approaches the top speed...
    assert!(prev_speed > 19.9);
    // ...and the car moved along its forward axis: Z decreased, consistently
    // with the integrated clamped-acceleration profile (average speed close
    // to half the top speed over the ramp).
    let z = f32::from_bits(engine.world.transform(e).unwrap().position.z);
    assert!(z < -3.0);
    assert!(z < -3.0 - 8.0 && z > -3.0 - 20.0);
}
