//! Bounds on the growth of the Fibonacci sequence: the numeric facts that
//! justify the shared overflow threshold. Index `FIBO_INDEX_MAX` is the last
//! one whose Fibonacci number fits a `u128`; the accumulator pairs inside the
//! strategies also touch the number one index past it, which still fits.

use vstd::prelude::*;

use crate::model::fibo;
use crate::model::FIBO_INDEX_MAX;

verus! {

/// The Fibonacci sequence never decreases as the index grows.
pub proof fn lemma_fibo_is_monotonic(i: nat, j: nat)
    requires
        i <= j,
    ensures
        fibo(i) <= fibo(j),
    decreases j - i,
{
    if j < 2 {
    } else if i == j {
    } else if i == j - 1 {
    } else {
        lemma_fibo_is_monotonic(i, (j - 1) as nat);
        lemma_fibo_is_monotonic(i, (j - 2) as nat);
    }
}

/// First stretch of the value chain behind `lemma_fibo_fits_u128`: walks the
/// recurrence one index at a time, so each assertion needs only one unfolding.
proof fn lemma_fibo_values_low()
    ensures
        fibo(62) == 4052739537881,
        fibo(63) == 6557470319842,
{
    assert(fibo(0) == 0);
    assert(fibo(1) == 1);
    assert(fibo(2) == 1);
    assert(fibo(3) == 2);
    assert(fibo(4) == 3);
    assert(fibo(5) == 5);
    assert(fibo(6) == 8);
    assert(fibo(7) == 13);
    assert(fibo(8) == 21);
    assert(fibo(9) == 34);
    assert(fibo(10) == 55);
    assert(fibo(11) == 89);
    assert(fibo(12) == 144);
    assert(fibo(13) == 233);
    assert(fibo(14) == 377);
    assert(fibo(15) == 610);
    assert(fibo(16) == 987);
    assert(fibo(17) == 1597);
    assert(fibo(18) == 2584);
    assert(fibo(19) == 4181);
    assert(fibo(20) == 6765);
    assert(fibo(21) == 10946);
    assert(fibo(22) == 17711);
    assert(fibo(23) == 28657);
    assert(fibo(24) == 46368);
    assert(fibo(25) == 75025);
    assert(fibo(26) == 121393);
    assert(fibo(27) == 196418);
    assert(fibo(28) == 317811);
    assert(fibo(29) == 514229);
    assert(fibo(30) == 832040);
    assert(fibo(31) == 1346269);
    assert(fibo(32) == 2178309);
    assert(fibo(33) == 3524578);
    assert(fibo(34) == 5702887);
    assert(fibo(35) == 9227465);
    assert(fibo(36) == 14930352);
    assert(fibo(37) == 24157817);
    assert(fibo(38) == 39088169);
    assert(fibo(39) == 63245986);
    assert(fibo(40) == 102334155);
    assert(fibo(41) == 165580141);
    assert(fibo(42) == 267914296);
    assert(fibo(43) == 433494437);
    assert(fibo(44) == 701408733);
    assert(fibo(45) == 1134903170);
    assert(fibo(46) == 1836311903);
    assert(fibo(47) == 2971215073);
    assert(fibo(48) == 4807526976);
    assert(fibo(49) == 7778742049);
    assert(fibo(50) == 12586269025);
    assert(fibo(51) == 20365011074);
    assert(fibo(52) == 32951280099);
    assert(fibo(53) == 53316291173);
    assert(fibo(54) == 86267571272);
    assert(fibo(55) == 139583862445);
    assert(fibo(56) == 225851433717);
    assert(fibo(57) == 365435296162);
    assert(fibo(58) == 591286729879);
    assert(fibo(59) == 956722026041);
    assert(fibo(60) == 1548008755920);
    assert(fibo(61) == 2504730781961);
    assert(fibo(62) == 4052739537881);
    assert(fibo(63) == 6557470319842);
}

/// Second stretch of the value chain, continuing from index 63.
proof fn lemma_fibo_values_mid()
    ensures
        fibo(124) == 36726740705505779255899443,
        fibo(125) == 59425114757512643212875125,
{
    lemma_fibo_values_low();
    assert(fibo(64) == 10610209857723);
    assert(fibo(65) == 17167680177565);
    assert(fibo(66) == 27777890035288);
    assert(fibo(67) == 44945570212853);
    assert(fibo(68) == 72723460248141);
    assert(fibo(69) == 117669030460994);
    assert(fibo(70) == 190392490709135);
    assert(fibo(71) == 308061521170129);
    assert(fibo(72) == 498454011879264);
    assert(fibo(73) == 806515533049393);
    assert(fibo(74) == 1304969544928657);
    assert(fibo(75) == 2111485077978050);
    assert(fibo(76) == 3416454622906707);
    assert(fibo(77) == 5527939700884757);
    assert(fibo(78) == 8944394323791464);
    assert(fibo(79) == 14472334024676221);
    assert(fibo(80) == 23416728348467685);
    assert(fibo(81) == 37889062373143906);
    assert(fibo(82) == 61305790721611591);
    assert(fibo(83) == 99194853094755497);
    assert(fibo(84) == 160500643816367088);
    assert(fibo(85) == 259695496911122585);
    assert(fibo(86) == 420196140727489673);
    assert(fibo(87) == 679891637638612258);
    assert(fibo(88) == 1100087778366101931);
    assert(fibo(89) == 1779979416004714189);
    assert(fibo(90) == 2880067194370816120);
    assert(fibo(91) == 4660046610375530309);
    assert(fibo(92) == 7540113804746346429);
    assert(fibo(93) == 12200160415121876738);
    assert(fibo(94) == 19740274219868223167);
    assert(fibo(95) == 31940434634990099905);
    assert(fibo(96) == 51680708854858323072);
    assert(fibo(97) == 83621143489848422977);
    assert(fibo(98) == 135301852344706746049);
    assert(fibo(99) == 218922995834555169026);
    assert(fibo(100) == 354224848179261915075);
    assert(fibo(101) == 573147844013817084101);
    assert(fibo(102) == 927372692193078999176);
    assert(fibo(103) == 1500520536206896083277);
    assert(fibo(104) == 2427893228399975082453);
    assert(fibo(105) == 3928413764606871165730);
    assert(fibo(106) == 6356306993006846248183);
    assert(fibo(107) == 10284720757613717413913);
    assert(fibo(108) == 16641027750620563662096);
    assert(fibo(109) == 26925748508234281076009);
    assert(fibo(110) == 43566776258854844738105);
    assert(fibo(111) == 70492524767089125814114);
    assert(fibo(112) == 114059301025943970552219);
    assert(fibo(113) == 184551825793033096366333);
    assert(fibo(114) == 298611126818977066918552);
    assert(fibo(115) == 483162952612010163284885);
    assert(fibo(116) == 781774079430987230203437);
    assert(fibo(117) == 1264937032042997393488322);
    assert(fibo(118) == 2046711111473984623691759);
    assert(fibo(119) == 3311648143516982017180081);
    assert(fibo(120) == 5358359254990966640871840);
    assert(fibo(121) == 8670007398507948658051921);
    assert(fibo(122) == 14028366653498915298923761);
    assert(fibo(123) == 22698374052006863956975682);
    assert(fibo(124) == 36726740705505779255899443);
    assert(fibo(125) == 59425114757512643212875125);
}

/// Last stretch of the value chain: the exact Fibonacci number one index
/// past `FIBO_INDEX_MAX`, the largest the strategies ever hold in a `u128`.
proof fn lemma_fibo_values_high()
    ensures
        fibo((FIBO_INDEX_MAX + 1) as nat) == 332825110087067562321196029789634457848,
{
    lemma_fibo_values_mid();
    assert(fibo(126) == 96151855463018422468774568);
    assert(fibo(127) == 155576970220531065681649693);
    assert(fibo(128) == 251728825683549488150424261);
    assert(fibo(129) == 407305795904080553832073954);
    assert(fibo(130) == 659034621587630041982498215);
    assert(fibo(131) == 1066340417491710595814572169);
    assert(fibo(132) == 1725375039079340637797070384);
    assert(fibo(133) == 2791715456571051233611642553);
    assert(fibo(134) == 4517090495650391871408712937);
    assert(fibo(135) == 7308805952221443105020355490);
    assert(fibo(136) == 11825896447871834976429068427);
    assert(fibo(137) == 19134702400093278081449423917);
    assert(fibo(138) == 30960598847965113057878492344);
    assert(fibo(139) == 50095301248058391139327916261);
    assert(fibo(140) == 81055900096023504197206408605);
    assert(fibo(141) == 131151201344081895336534324866);
    assert(fibo(142) == 212207101440105399533740733471);
    assert(fibo(143) == 343358302784187294870275058337);
    assert(fibo(144) == 555565404224292694404015791808);
    assert(fibo(145) == 898923707008479989274290850145);
    assert(fibo(146) == 1454489111232772683678306641953);
    assert(fibo(147) == 2353412818241252672952597492098);
    assert(fibo(148) == 3807901929474025356630904134051);
    assert(fibo(149) == 6161314747715278029583501626149);
    assert(fibo(150) == 9969216677189303386214405760200);
    assert(fibo(151) == 16130531424904581415797907386349);
    assert(fibo(152) == 26099748102093884802012313146549);
    assert(fibo(153) == 42230279526998466217810220532898);
    assert(fibo(154) == 68330027629092351019822533679447);
    assert(fibo(155) == 110560307156090817237632754212345);
    assert(fibo(156) == 178890334785183168257455287891792);
    assert(fibo(157) == 289450641941273985495088042104137);
    assert(fibo(158) == 468340976726457153752543329995929);
    assert(fibo(159) == 757791618667731139247631372100066);
    assert(fibo(160) == 1226132595394188293000174702095995);
    assert(fibo(161) == 1983924214061919432247806074196061);
    assert(fibo(162) == 3210056809456107725247980776292056);
    assert(fibo(163) == 5193981023518027157495786850488117);
    assert(fibo(164) == 8404037832974134882743767626780173);
    assert(fibo(165) == 13598018856492162040239554477268290);
    assert(fibo(166) == 22002056689466296922983322104048463);
    assert(fibo(167) == 35600075545958458963222876581316753);
    assert(fibo(168) == 57602132235424755886206198685365216);
    assert(fibo(169) == 93202207781383214849429075266681969);
    assert(fibo(170) == 150804340016807970735635273952047185);
    assert(fibo(171) == 244006547798191185585064349218729154);
    assert(fibo(172) == 394810887814999156320699623170776339);
    assert(fibo(173) == 638817435613190341905763972389505493);
    assert(fibo(174) == 1033628323428189498226463595560281832);
    assert(fibo(175) == 1672445759041379840132227567949787325);
    assert(fibo(176) == 2706074082469569338358691163510069157);
    assert(fibo(177) == 4378519841510949178490918731459856482);
    assert(fibo(178) == 7084593923980518516849609894969925639);
    assert(fibo(179) == 11463113765491467695340528626429782121);
    assert(fibo(180) == 18547707689471986212190138521399707760);
    assert(fibo(181) == 30010821454963453907530667147829489881);
    assert(fibo(182) == 48558529144435440119720805669229197641);
    assert(fibo(183) == 78569350599398894027251472817058687522);
    assert(fibo(184) == 127127879743834334146972278486287885163);
    assert(fibo(185) == 205697230343233228174223751303346572685);
    assert(fibo(186) == 332825110087067562321196029789634457848);
}

/// Every Fibonacci number up to one index past `FIBO_INDEX_MAX` fits in a
/// `u128`; this is what makes every addition in the strategies safe.
pub proof fn lemma_fibo_fits_u128(n: nat)
    requires
        n <= FIBO_INDEX_MAX + 1,
    ensures
        fibo(n) <= u128::MAX,
{
    lemma_fibo_values_high();
    lemma_fibo_is_monotonic(n, (FIBO_INDEX_MAX + 1) as nat);
}

} // verus!
