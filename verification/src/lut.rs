//! Pitch and slide lookup tables.
//!
//! Every entry is an unsigned Q32.32 multiplier, rounded to the nearest bit pattern.

use crate::fixed_point::ONE;
use vstd::prelude::*;

verus! {

/// Number of semitones a note can name.
pub const NOTE_COUNT: usize = 120;

/// Number of entries of the pitch table: every note, and up to fifteen semitones above the
/// highest one, which is as far as an arpeggio reaches.
pub const PITCH_COUNT: usize = 135;


/// Multiplier of each semitone: two to the power (semitone - 60) / 12, so that semitone 60
/// plays a sample at its base frequency and twelve semitones double the frequency.
pub const PITCH_TABLE: [u64; 135] = [
    134217728, 142198729, 150654306, 159612677,
    169103741, 179159172, 189812531, 201099372,
    213057363, 225726413, 239148804, 253369332,
    268435456, 284397459, 301308612, 319225354,
    338207482, 358318345, 379625062, 402198743,
    426114725, 451452825, 478297607, 506738663,
    536870912, 568794918, 602617224, 638450708,
    676414963, 716636690, 759250125, 804397487,
    852229450, 902905651, 956595215, 1013477326,
    1073741824, 1137589835, 1205234447, 1276901417,
    1352829926, 1433273380, 1518500250, 1608794974,
    1704458901, 1805811301, 1913190429, 2026954652,
    2147483648, 2275179671, 2410468894, 2553802834,
    2705659852, 2866546760, 3037000500, 3217589947,
    3408917802, 3611622603, 3826380858, 4053909305,
    4294967296, 4550359342, 4820937788, 5107605667,
    5411319705, 5733093519, 6074001000, 6435179895,
    6817835604, 7223245206, 7652761717, 8107818609,
    8589934592, 9100718683, 9641875577, 10215211334,
    10822639410, 11466187038, 12148002000, 12870359789,
    13635671208, 14446490411, 15305523434, 16215637218,
    17179869184, 18201437366, 19283751154, 20430422668,
    21645278819, 22932374076, 24296004000, 25740719578,
    27271342415, 28892980823, 30611046868, 32431274436,
    34359738368, 36402874733, 38567502308, 40860845337,
    43290557639, 45864748152, 48592008000, 51481439156,
    54542684831, 57785961645, 61222093735, 64862548872,
    68719476736, 72805749465, 77135004616, 81721690674,
    86581115277, 91729496305, 97184015999, 102962878313,
    109085369661, 115571923291, 122444187471, 129725097744,
    137438953472, 145611498931, 154270009232, 163443381347,
    173162230555, 183458992610, 194368031998, 205925756626,
    218170739323, 231143846582, 244888374942, 259450195488,
    274877906944, 291222997862, 308540018463,
];

/// Multiplier of one tick of an upward linear slide by a parameter: two to the power
/// parameter / 768, so that 64 units make a semitone.
pub const LINEAR_UP: [u64; 256] = [
    4294967296, 4298845406, 4302727017, 4306612134,
    4310500758, 4314392894, 4318288544, 4322187711,
    4326090400, 4329996612, 4333906351, 4337819620,
    4341736423, 4345656763, 4349580643, 4353508065,
    4357439034, 4361373552, 4365311623, 4369253250,
    4373198435, 4377147183, 4381099497, 4385055379,
    4389014833, 4392977863, 4396944470, 4400914660,
    4404888434, 4408865796, 4412846750, 4416831298,
    4420819444, 4424811191, 4428806543, 4432805502,
    4436808071, 4440814255, 4444824057, 4448837478,
    4452854524, 4456875197, 4460899500, 4464927438,
    4468959012, 4472994226, 4477033084, 4481075589,
    4485121744, 4489171552, 4493225017, 4497282142,
    4501342931, 4505407386, 4509475511, 4513547310,
    4517622785, 4521701940, 4525784778, 4529871303,
    4533961517, 4538055425, 4542153030, 4546254334,
    4550359342, 4554468056, 4558580480, 4562696617,
    4566816471, 4570940045, 4575067343, 4579198367,
    4583333121, 4587471609, 4591613833, 4595759798,
    4599909506, 4604062961, 4608220167, 4612381126,
    4616545842, 4620714319, 4624886560, 4629062568,
    4633242347, 4637425899, 4641613230, 4645804341,
    4649999237, 4654197920, 4658400394, 4662606663,
    4666816731, 4671030599, 4675248273, 4679469754,
    4683695048, 4687924157, 4692157084, 4696393833,
    4700634408, 4704878812, 4709127049, 4713379121,
    4717635033, 4721894787, 4726158388, 4730425839,
    4734697143, 4738972304, 4743251325, 4747534209,
    4751820961, 4756111584, 4760406080, 4764704455,
    4769006710, 4773312851, 4777622879, 4781936799,
    4786254615, 4790576329, 4794901945, 4799231467,
    4803564899, 4807902243, 4812243504, 4816588684,
    4820937788, 4825290820, 4829647781, 4834008677,
    4838373510, 4842742285, 4847115004, 4851491672,
    4855872291, 4860256866, 4864645400, 4869037896,
    4873434359, 4877834792, 4882239197, 4886647580,
    4891059943, 4895476291, 4899896626, 4904320952,
    4908749273, 4913181593, 4917617915, 4922058243,
    4926502580, 4930950930, 4935403297, 4939859683,
    4944320094, 4948784532, 4953253002, 4957725506,
    4962202048, 4966682633, 4971167263, 4975655943,
    4980148676, 4984645465, 4989146315, 4993651229,
    4998160210, 5002673263, 5007190391, 5011711597,
    5016236886, 5020766261, 5025299726, 5029837284,
    5034378939, 5038924695, 5043474556, 5048028525,
    5052586606, 5057148803, 5061715119, 5066285558,
    5070860124, 5075438821, 5080021652, 5084608621,
    5089199732, 5093794988, 5098394393, 5102997952,
    5107605667, 5112217543, 5116833583, 5121453791,
    5126078171, 5130706726, 5135339461, 5139976379,
    5144617483, 5149262779, 5153912268, 5158565956,
    5163223846, 5167885942, 5172552247, 5177222766,
    5181897502, 5186576459, 5191259641, 5195947052,
    5200638695, 5205334574, 5210034693, 5214739057,
    5219447668, 5224160530, 5228877648, 5233599026,
    5238324666, 5243054574, 5247788752, 5252527205,
    5257269937, 5262016951, 5266768251, 5271523842,
    5276283726, 5281047909, 5285816393, 5290589183,
    5295366282, 5300147695, 5304933425, 5309723477,
    5314517853, 5319316559, 5324119597, 5328926973,
    5333738689, 5338554750, 5343375160, 5348199922,
    5353029040, 5357862519, 5362700363, 5367542574,
    5372389158, 5377240118, 5382095459, 5386955183,
    5391819295, 5396687800, 5401560700, 5406438001,
];

/// Multiplier of one tick of a downward linear slide by a parameter: two to the power
/// -parameter / 768.
pub const LINEAR_DOWN: [u64; 256] = [
    4294967296, 4291092685, 4287221569, 4283353945,
    4279489811, 4275629162, 4271771996, 4267918310,
    4264068101, 4260221365, 4256378099, 4252538300,
    4248701965, 4244869091, 4241039675, 4237213713,
    4233391203, 4229572141, 4225756525, 4221944351,
    4218135615, 4214330316, 4210528450, 4206730013,
    4202935003, 4199143417, 4195355251, 4191570503,
    4187789169, 4184011246, 4180236731, 4176465622,
    4172697914, 4168933606, 4165172693, 4161415173,
    4157661043, 4153910300, 4150162940, 4146418961,
    4142678359, 4138941132, 4135207276, 4131476789,
    4127749667, 4124025908, 4120305508, 4116588464,
    4112874773, 4109164433, 4105457439, 4101753790,
    4098053483, 4094356513, 4090662878, 4086972576,
    4083285602, 4079601955, 4075921631, 4072244627,
    4068570940, 4064900568, 4061233506, 4057569753,
    4053909305, 4050252158, 4046598312, 4042947761,
    4039300504, 4035656537, 4032015857, 4028378462,
    4024744348, 4021113512, 4017485952, 4013861665,
    4010240647, 4006622896, 4003008408, 3999397181,
    3995789212, 3992184498, 3988583035, 3984984822,
    3981389855, 3977798131, 3974209647, 3970624400,
    3967042388, 3963463607, 3959888054, 3956315728,
    3952746623, 3949180739, 3945618072, 3942058618,
    3938502376, 3934949342, 3931399513, 3927852886,
    3924309459, 3920769229, 3917232192, 3913698347,
    3910167689, 3906640216, 3903115926, 3899594815,
    3896076880, 3892562119, 3889050529, 3885542107,
    3882036850, 3878534755, 3875035819, 3871540040,
    3868047414, 3864557939, 3861071613, 3857588431,
    3854108391, 3850631492, 3847157728, 3843687099,
    3840219600, 3836755229, 3833293984, 3829835862,
    3826380858, 3822928972, 3819480200, 3816034539,
    3812591987, 3809152540, 3805716196, 3802282952,
    3798852805, 3795425753, 3792001792, 3788580920,
    3785163134, 3781748432, 3778336810, 3774928266,
    3771522796, 3768120399, 3764721071, 3761324810,
    3757931613, 3754541477, 3751154399, 3747770376,
    3744389407, 3741011488, 3737636616, 3734264788,
    3730896002, 3727530256, 3724167545, 3720807869,
    3717451223, 3714097605, 3710747013, 3707399443,
    3704054894, 3700713361, 3697374843, 3694039337,
    3690706840, 3687377349, 3684050862, 3680727376,
    3677406887, 3674089395, 3670774895, 3667463386,
    3664154863, 3660849326, 3657546770, 3654247194,
    3650950594, 3647656969, 3644366315, 3641078629,
    3637793909, 3634512152, 3631233356, 3627957518,
    3624684635, 3621414705, 3618147725, 3614883691,
    3611622603, 3608364456, 3605109249, 3601856978,
    3598607641, 3595361235, 3592117759, 3588877208,
    3585639580, 3582404874, 3579173085, 3575944212,
    3572718252, 3569495202, 3566275059, 3563057822,
    3559843487, 3556632052, 3553423514, 3550217870,
    3547015118, 3543815256, 3540618280, 3537424188,
    3534232978, 3531044647, 3527859192, 3524676610,
    3521496900, 3518320058, 3515146082, 3511974970,
    3508806718, 3505641324, 3502478786, 3499319101,
    3496162267, 3493008280, 3489857139, 3486708840,
    3483563382, 3480420761, 3477280975, 3474144022,
    3471009898, 3467878602, 3464750131, 3461624482,
    3458501653, 3455381641, 3452264444, 3449150059,
    3446038483, 3442929714, 3439823750, 3436720588,
    3433620226, 3430522660, 3427427888, 3424335909,
    3421246719, 3418160316, 3415076697, 3411995860,
];

/// Multiplier of an upward extra-fine linear slide, a quarter of a regular unit each: two to
/// the power parameter / 3072.
pub const FINE_LINEAR_UP: [u64; 16] = [
    4294967296, 4295936495, 4296905913, 4297875550,
    4298845406, 4299815480, 4300785774, 4301756286,
    4302727017, 4303697968, 4304669137, 4305640526,
    4306612134, 4307583961, 4308556007, 4309528273,
];

/// Multiplier of a downward extra-fine linear slide: two to the power -parameter / 3072.
pub const FINE_LINEAR_DOWN: [u64; 16] = [
    4294967296, 4293998315, 4293029553, 4292061010,
    4291092685, 4290124578, 4289156690, 4288189020,
    4287221569, 4286254336, 4285287321, 4284320524,
    4283353945, 4282387585, 4281421442, 4280455518,
];

/// The pitch multiplier of a semitone index.
pub fn pitch(index: usize) -> (r: u64)
    requires
        index < PITCH_COUNT,
    ensures
        r == PITCH_TABLE[index as int],
{
    PITCH_TABLE[index]
}

/// The per-tick multiplier of an upward linear slide.
pub fn linear_up(value: u8) -> (r: u64)
    ensures
        r == LINEAR_UP[value as int],
        r >= ONE,
{
    proof {
        lemma_linear_up_raises(value);
    }
    LINEAR_UP[value as usize]
}

/// The per-tick multiplier of a downward linear slide.
pub fn linear_down(value: u8) -> (r: u64)
    ensures
        r == LINEAR_DOWN[value as int],
        0 < r <= ONE,
{
    proof {
        lemma_linear_down_lowers(value);
    }
    LINEAR_DOWN[value as usize]
}

/// The multiplier of an upward extra-fine linear slide.
pub fn fine_linear_up(value: u8) -> (r: u64)
    requires
        value < 16,
    ensures
        r == FINE_LINEAR_UP[value as int],
{
    FINE_LINEAR_UP[value as usize]
}

/// The multiplier of a downward extra-fine linear slide.
pub fn fine_linear_down(value: u8) -> (r: u64)
    requires
        value < 16,
    ensures
        r == FINE_LINEAR_DOWN[value as int],
{
    FINE_LINEAR_DOWN[value as usize]
}

/// No upward slide multiplier is below one.
pub proof fn lemma_linear_up_raises(value: u8)
    ensures
        LINEAR_UP[value as int] >= ONE,
{
}

/// No downward slide multiplier is above one, and none is zero.
pub proof fn lemma_linear_down_lowers(value: u8)
    ensures
        0 < LINEAR_DOWN[value as int] <= ONE,
{
}

/// Sixty-four units of linear slide make a semitone: the slide factors of 64 are the pitch
/// factors of the semitones next to the reference.
pub proof fn lemma_semitone_is_64_units()
    ensures
        LINEAR_UP[64] == PITCH_TABLE[61],
        LINEAR_DOWN[64] == PITCH_TABLE[59],
{
}

/// Twelve semitones double the frequency.
pub proof fn lemma_octave_doubles(index: int)
    requires
        0 <= index,
        index + 12 < PITCH_COUNT as int,
    ensures
        PITCH_TABLE[index + 12] as int - 2 * PITCH_TABLE[index] as int <= 1,
        2 * PITCH_TABLE[index] as int - PITCH_TABLE[index + 12] as int <= 1,
{
}

/// Semitone 60 is the reference: its multiplier is exactly one.
pub proof fn lemma_pitch_reference()
    ensures
        PITCH_TABLE[60] == ONE,
{
}

} // verus!
