use gateway_mfr::provision::{DEFAULT_KEY_CONFIG, DEFAULT_SLOT_CONFIG};
use gateway_mfr::{
    key_config_in_unit, locked_in_unit, slot_config_in_unit, Address, EccCommand, Provision,
    ProvisionStep, Zone,
};

const GX: &str = "6b17d1f2e12c4247f8bce6e563a440f277037d812deb33a0f4a13945d898c296";
const GY: &str = "4fe342e2fe1a7f9b8ee7eb4a7c0f9e162bce33576b315ececbb6406837bf51f5";
const NEG_GY: &str = "b01cbd1c01e58065711814b583f061e9d431cca994cea1313449bf97c840ae0a";

fn hex32(s: &str) -> Vec<u8> {
    (0..32).map(|i| u8::from_str_radix(&s[2 * i..2 * i + 2], 16).unwrap()).collect()
}

/// A device that executes frames against an in-memory Config zone.
struct Simulator {
    config: [u8; 128],
    points: Vec<Vec<u8>>,
    log: Vec<(u8, u8, u16, Vec<u8>)>,
}

impl Simulator {
    fn new(points: Vec<Vec<u8>>) -> Self {
        let mut config = [0u8; 128];
        for (i, b) in config.iter_mut().enumerate() {
            *b = (i as u8).wrapping_mul(31);
        }
        config[86] = 0x55;
        config[87] = 0x55;
        Simulator { config, points, log: Vec::new() }
    }

    fn unit_index(word: u16) -> usize {
        let block = ((word >> 11) & 3) as usize;
        let offset = ((word >> 8) & 7) as usize;
        block * 32 + offset * 4
    }

    fn execute(&mut self, cmd: &EccCommand) -> Vec<u8> {
        let frame = cmd.to_frame();
        let n = frame.len();
        assert_eq!(frame[1] as usize, n - 1);
        let c = gateway_mfr::crc(&frame[1..n - 2]);
        assert_eq!(&frame[n - 2..], &[(c & 0xff) as u8, (c >> 8) as u8]);
        let (opcode, p1) = (frame[2], frame[3]);
        let p2 = frame[4] as u16 | (frame[5] as u16) << 8;
        let data = frame[6..n - 2].to_vec();
        self.log.push((opcode, p1, p2, data.clone()));
        match opcode {
            0x02 => {
                assert_eq!(p1, 0);
                let i = Self::unit_index(p2);
                self.config[i..i + 4].to_vec()
            }
            0x12 => {
                assert_eq!(p1, 0);
                assert_eq!(data.len(), 4);
                let i = Self::unit_index(p2);
                self.config[i..i + 4].copy_from_slice(&data);
                vec![]
            }
            0x17 => {
                match p1 & 3 {
                    0 => self.config[87] = 0,
                    1 => self.config[86] = 0,
                    _ => panic!("bad lock zone"),
                }
                vec![]
            }
            0x40 => self.points.remove(0),
            _ => panic!("unexpected opcode {opcode:#x}"),
        }
    }
}

fn run(sim: &mut Simulator) -> ProvisionStep {
    let (mut provision, mut cmd) = Provision::start(0);
    loop {
        let data = sim.execute(&cmd);
        match provision.on_response(&data) {
            ProvisionStep::Send(next) => cmd = next,
            done => return done,
        }
    }
}

fn point(y: &str) -> Vec<u8> {
    let mut p = hex32(GX);
    p.extend_from_slice(&hex32(y));
    p
}

#[test]
fn provision_command_stream() {
    let mut sim = Simulator::new(vec![point(NEG_GY), point(NEG_GY), point(GY)]);
    let key = match run(&mut sim) {
        ProvisionStep::Finished(k) => k,
        other => panic!("unexpected {:?}", other),
    };
    assert_eq!(key[0], 0x04);
    assert_eq!(&key[1..], &point(GY)[..]);

    let writes: Vec<_> = sim.log.iter().filter(|e| e.0 == 0x12).collect();
    let slot_writes = writes.iter().filter(|e| (e.2 >> 11) & 3 < 2).count();
    let key_writes = writes.iter().filter(|e| (e.2 >> 11) & 3 == 3).count();
    assert_eq!(slot_writes, 16);
    assert_eq!(key_writes, 16);
    let rest: Vec<_> = sim.log.iter().filter(|e| e.0 != 0x02 && e.0 != 0x12).collect();
    assert_eq!(rest.len(), 5);
    assert_eq!((rest[0].0, rest[0].1 & 3), (0x17, 0));
    assert_eq!((rest[1].0, rest[1].1 & 3), (0x17, 1));
    for g in &rest[2..] {
        assert_eq!((g.0, g.1, g.2), (0x40, 0x04, 0));
    }

    let lock = Address::lock_status().to_u16();
    let i = Simulator::unit_index(lock);
    let unit = &sim.config[i..i + 4];
    assert!(locked_in_unit(Zone::Config, unit));
    assert!(locked_in_unit(Zone::Data, unit));
    for slot in 0u8..16 {
        let a = Address::key_config(slot).unwrap().to_u16();
        let i = Simulator::unit_index(a);
        assert_eq!(key_config_in_unit(slot, &sim.config[i..i + 4]).to_u16(), DEFAULT_KEY_CONFIG);
    }
    for slot in 0u8..16 {
        let a = Address::slot_config(slot).unwrap().to_u16();
        let i = Simulator::unit_index(a);
        assert_eq!(slot_config_in_unit(slot, &sim.config[i..i + 4]).to_u16(), DEFAULT_SLOT_CONFIG);
    }
}

#[test]
fn provision_gives_up_after_five_keys() {
    let mut sim = Simulator::new(vec![point(NEG_GY); 5]);
    assert!(matches!(run(&mut sim), ProvisionStep::GaveUp));
    assert_eq!(sim.log.iter().filter(|e| e.0 == 0x40).count(), 5);
}

#[test]
fn provision_accepts_first_compact_key() {
    let mut sim = Simulator::new(vec![point(GY)]);
    assert!(matches!(run(&mut sim), ProvisionStep::Finished(_)));
    assert_eq!(sim.log.iter().filter(|e| e.0 == 0x40).count(), 1);
    assert_eq!(sim.log.len(), 64 + 2 + 1);
}
