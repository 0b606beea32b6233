use parlab::simulation::{brownian_step, clean_buffer, spawn_particles, Particle, PushConstants};
use parlab::xorshift::Xorshift32;

fn constants(w: u32, h: u32, n: u32) -> PushConstants {
    PushConstants { grid_width: w, grid_height: h, num_particles: n, max_density: 50 }
}

fn particle(x: u32, y: u32, seed: u32) -> Particle {
    Particle { pos_x: x, pos_y: y, rng: Xorshift32 { state: seed }, _padding: 0 }
}

#[test]
fn spawn_puts_everyone_in_the_centre() {
    let ps = spawn_particles(3, 640, 480);
    assert_eq!(ps.len(), 3);
    for (i, p) in ps.iter().enumerate() {
        assert_eq!((p.pos_x, p.pos_y), (320, 240));
        assert_eq!(p.rng.state, 1337 + i as u32);
        assert_eq!(p._padding, 0);
    }
}

#[test]
fn step_up_from_centre() {
    let c = constants(640, 480, 1);
    let mut ps = vec![particle(320, 240, 1337)];
    let mut grid = vec![0u32; 640 * 480];
    brownian_step(0, &mut ps, &mut grid, &c);
    assert_eq!((ps[0].pos_x, ps[0].pos_y), (320, 239));
    assert_eq!(ps[0].rng.state, 339970090);
    assert_eq!(grid[239 * 640 + 320], 1);
    assert_eq!(grid.iter().map(|&v| v as u64).sum::<u64>(), 1);
}

#[test]
fn each_direction_moves_one_cell() {
    let c = constants(10, 10, 1);
    // Seeds whose next state has top bits 0 (up), 1 (right), 2 (down), 3 (left).
    let cases = [(1u32, (5u32, 4u32)), (4096, (6, 5)), (8198, (5, 6)), (12293, (4, 5))];
    for (seed, expected) in cases {
        let mut ps = vec![particle(5, 5, seed)];
        let mut grid = vec![0u32; 100];
        brownian_step(0, &mut ps, &mut grid, &c);
        assert_eq!((ps[0].pos_x, ps[0].pos_y), expected);
        assert_eq!(grid[(expected.1 * 10 + expected.0) as usize], 1);
    }
}

#[test]
fn borders_reflect_inward() {
    let c = constants(10, 10, 1);
    let cases = [
        (1u32, (3u32, 0u32), (3u32, 1u32)),
        (4096, (9, 3), (8, 3)),
        (8198, (3, 9), (3, 8)),
        (12293, (0, 3), (1, 3)),
    ];
    for (seed, start, expected) in cases {
        let mut ps = vec![particle(start.0, start.1, seed)];
        let mut grid = vec![0u32; 100];
        brownian_step(0, &mut ps, &mut grid, &c);
        assert_eq!((ps[0].pos_x, ps[0].pos_y), expected);
    }
}

#[test]
fn invocations_past_the_particle_count_do_nothing() {
    let c = constants(10, 10, 1);
    let mut ps = vec![particle(5, 5, 1), particle(5, 5, 1)];
    let mut grid = vec![7u32; 100];
    brownian_step(1, &mut ps, &mut grid, &c);
    assert_eq!((ps[1].pos_x, ps[1].pos_y, ps[1].rng.state), (5, 5, 1));
    assert!(grid.iter().all(|&v| v == 7));
}

#[test]
fn density_counter_wraps() {
    let c = constants(10, 10, 1);
    let mut ps = vec![particle(5, 5, 1)];
    let mut grid = vec![u32::MAX; 100];
    brownian_step(0, &mut ps, &mut grid, &c);
    assert_eq!(grid[4 * 10 + 5], 0);
}

#[test]
fn many_steps_stay_inside_the_grid() {
    let c = constants(4, 3, 50);
    let mut ps = spawn_particles(50, 4, 3);
    let mut grid = vec![0u32; 12];
    for _ in 0..200 {
        for id in 0..60 {
            brownian_step(id, &mut ps, &mut grid, &c);
        }
    }
    assert!(ps.iter().all(|p| p.pos_x < 4 && p.pos_y < 3));
    assert_eq!(grid.iter().map(|&v| v as u64).sum::<u64>(), 50 * 200);
}

#[test]
fn clean_zeroes_cells_inside_the_grid_only() {
    let c = constants(3, 2, 0);
    let mut grid = vec![9u32; 8];
    for id in 0..8 {
        clean_buffer(id, &mut grid, &c);
    }
    assert_eq!(grid, vec![0, 0, 0, 0, 0, 0, 9, 9]);
}
